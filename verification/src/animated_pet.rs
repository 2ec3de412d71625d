//! The animated pet: a thin facade over the animation engine with
//! convenience entry points for the idle loops and one-shot reactions.

use vstd::prelude::*;

use crate::engine::engine_request_post;
use crate::engine::engine_update_post;
use crate::engine::particles_view;
use crate::engine::started_ok;
use crate::engine::AnimationEngine;
use crate::engine::EngineModel;
use crate::frame::Color;
use crate::frame::Particle;
use crate::kinds::AnimationType;

verus! {

/// The character's animation state: one engine instance, started on the
/// default infinite idle loop.
pub struct AnimatedPet {
    engine: AnimationEngine,
}

impl View for AnimatedPet {
    type V = EngineModel;

    closed spec fn view(&self) -> EngineModel {
        self.engine@
    }
}

impl AnimatedPet {
    /// Whether the underlying engine's invariant holds.
    pub closed spec fn wf(&self) -> bool {
        self.engine.wf()
    }

    /// A fresh animated pet at `now_ms`: the neutral idle loop is
    /// playing, the queue is empty, and no particles are live.
    pub fn new(now_ms: u64) -> (a: AnimatedPet)
        ensures
            a.wf(),
            a@.current matches Some(c) && started_ok(c, AnimationType::IdleNeutral, now_ms),
            a@.queue.len() == 0,
            a@.particles.len() == 0,
            a@.last_update_ms == now_ms,
    {
        let mut engine = AnimationEngine::new(now_ms);
        engine.request(AnimationType::IdleNeutral, now_ms);
        AnimatedPet { engine }
    }

    /// Ask for an animation: the engine's preemption policy decides
    /// whether it replaces the playing animation or queues.
    pub fn trigger(&mut self, anim_type: AnimationType, now_ms: u64)
        requires
            old(self).wf(),
        ensures
            final(self).wf(),
            engine_request_post(old(self)@, final(self)@, anim_type, now_ms),
    {
        self.engine.request(anim_type, now_ms);
    }

    /// One engine tick at `now_ms`.
    pub fn update(&mut self, now_ms: u64)
        requires
            old(self).wf(),
        ensures
            final(self).wf(),
            engine_update_post(old(self)@, final(self)@, now_ms),
    {
        self.engine.update(now_ms);
    }

    /// Ask for the neutral idle loop.
    pub fn set_idle(&mut self, now_ms: u64)
        requires
            old(self).wf(),
        ensures
            final(self).wf(),
            engine_request_post(old(self)@, final(self)@, AnimationType::IdleNeutral, now_ms),
    {
        self.engine.request(AnimationType::IdleNeutral, now_ms);
    }

    /// Ask for the happy idle loop.
    pub fn set_idle_happy(&mut self, now_ms: u64)
        requires
            old(self).wf(),
        ensures
            final(self).wf(),
            engine_request_post(old(self)@, final(self)@, AnimationType::IdleHappy, now_ms),
    {
        self.engine.request(AnimationType::IdleHappy, now_ms);
    }

    /// Ask for the sad idle loop.
    pub fn set_idle_sad(&mut self, now_ms: u64)
        requires
            old(self).wf(),
        ensures
            final(self).wf(),
            engine_request_post(old(self)@, final(self)@, AnimationType::IdleSad, now_ms),
    {
        self.engine.request(AnimationType::IdleSad, now_ms);
    }

    /// Ask for the sleeping idle loop.
    pub fn set_idle_sleeping(&mut self, now_ms: u64)
        requires
            old(self).wf(),
        ensures
            final(self).wf(),
            engine_request_post(old(self)@, final(self)@, AnimationType::IdleSleeping, now_ms),
    {
        self.engine.request(AnimationType::IdleSleeping, now_ms);
    }

    /// The art rows of the currently displayed frame. Side-effect free.
    pub fn current_art(&self) -> (r: Option<&Vec<String>>)
        requires
            self.wf(),
        ensures
            match self@.current {
                Some(a) => r matches Some(art) && art.deep_view() == a.frames[
                    a.current_frame
                ].art,
                None => r is None,
            },
    {
        self.engine.current_art()
    }

    /// The color override of the currently displayed frame, if any.
    /// Side-effect free.
    pub fn current_color(&self) -> (r: Option<Color>)
        requires
            self.wf(),
        ensures
            r == match self@.current {
                Some(a) => a.frames[a.current_frame].color_override,
                None => None::<Color>,
            },
    {
        self.engine.current_color()
    }

    /// The kind of the playing animation, if any. Side-effect free.
    pub fn current_type(&self) -> (r: Option<AnimationType>)
        ensures
            r == match self@.current {
                Some(a) => Some(a.anim_type),
                None => None::<AnimationType>,
            },
    {
        self.engine.current_type()
    }

    /// The live particles, for rendering. Side-effect free.
    pub fn particles(&self) -> (r: &Vec<Particle>)
        ensures
            particles_view(r@) == self@.particles,
    {
        self.engine.particles()
    }
}

} // verus!
