//! The animation engine: the per-animation frame state machine, the
//! priority-preemption scheduler with its FIFO backlog, and the particle
//! pass run on every tick.
//!
//! All timing is in milliseconds of a monotonic clock supplied by the
//! caller, so behaviour is a function of the supplied timestamps alone.

use vstd::prelude::*;

use crate::frame::age_after;
use crate::frame::AnimationFrame;
use crate::frame::Color;
use crate::frame::FrameModel;
use crate::frame::Particle;
use crate::frame::ParticleModel;
use crate::frame::ParticleSpec;
use crate::frame::particle_live;
use crate::frame::spawned;
use crate::kinds::AnimationPriority;
use crate::kinds::AnimationType;
use crate::library::frames_view;
use crate::library::library_frames_ok;
use crate::library::FrameCache;
use std::collections::VecDeque;
use std::sync::Arc;

verus! {

/// The fixed anchor cell that particles spawn around.
pub const PARTICLE_ANCHOR_X: u16 = 10;

/// The fixed anchor row that particles spawn around.
pub const PARTICLE_ANCHOR_Y: u16 = 10;

/// The one currently-playing animation: its kind, a shared handle to its
/// frame sequence, the playback position, and the loop bookkeeping.
/// `max_loops` of `None` means the animation cycles forever; `Some(1)`
/// means it plays once through and then reports completion.
#[derive(Debug, Clone)]
pub struct ActiveAnimation {
    pub anim_type: AnimationType,
    pub frames: Arc<Vec<AnimationFrame>>,
    pub current_frame: usize,
    pub frame_start_ms: u64,
    pub loop_count: u32,
    pub max_loops: Option<u32>,
}

/// The mathematical value of an `ActiveAnimation`.
pub ghost struct AnimModel {
    pub anim_type: AnimationType,
    pub frames: Seq<FrameModel>,
    pub current_frame: int,
    pub frame_start_ms: u64,
    pub loop_count: u32,
    pub max_loops: Option<u32>,
}

impl View for ActiveAnimation {
    type V = AnimModel;

    open spec fn view(&self) -> AnimModel {
        AnimModel {
            anim_type: self.anim_type,
            frames: frames_view(self.frames@),
            current_frame: self.current_frame as int,
            frame_start_ms: self.frame_start_ms,
            loop_count: self.loop_count,
            max_loops: self.max_loops,
        }
    }
}

/// The frame index is a valid index into the frame sequence.
pub open spec fn anim_wf(a: AnimModel) -> bool {
    0 <= a.current_frame < a.frames.len()
}

/// The model of an animation freshly promoted to current: playing frame 0
/// of `frames` since `now_ms`, with no completed loops, looping forever
/// exactly when its kind is an infinite one.
pub open spec fn started_anim(kind: AnimationType, frames: Seq<FrameModel>, now_ms: u64) -> AnimModel {
    AnimModel {
        anim_type: kind,
        frames,
        current_frame: 0,
        frame_start_ms: now_ms,
        loop_count: 0u32,
        max_loops: if kind.spec_is_infinite() {
            None::<u32>
        } else {
            Some(1u32)
        },
    }
}

/// An animation freshly promoted for `kind` at `now_ms`, with the frame
/// sequence the library hands out for that kind.
pub open spec fn started_ok(a: AnimModel, kind: AnimationType, now_ms: u64) -> bool {
    &&& library_frames_ok(kind, a.frames)
    &&& a == started_anim(kind, a.frames, now_ms)
}

/// Whether the current frame's display time has elapsed at `now_ms`.
pub open spec fn spec_should_advance(a: AnimModel, now_ms: u64) -> bool {
    now_ms.saturating_sub(a.frame_start_ms) >= a.frames[a.current_frame].duration_ms
}

/// Whether one more `advance` completes the animation: the step leaves
/// the last frame, and the incremented loop count reaches the maximum.
/// An animation with no maximum (an infinite one) never completes.
pub open spec fn advance_completed(a: AnimModel) -> bool {
    &&& a.current_frame + 1 >= a.frames.len()
    &&& a.max_loops matches Some(m) && a.loop_count.saturating_add(1u32) >= m
}

/// The animation after one `advance` at `now_ms`: the frame index moves
/// forward, wrapping to 0 at the end of the sequence (counting a loop),
/// except that a completing step clamps the index to the last frame. The
/// frame start is reset to `now_ms` in every case.
pub open spec fn advanced_anim(a: AnimModel, now_ms: u64) -> AnimModel {
    if a.current_frame + 1 >= a.frames.len() {
        let lc = a.loop_count.saturating_add(1u32);
        if advance_completed(a) {
            AnimModel {
                current_frame: a.frames.len() - 1,
                frame_start_ms: now_ms,
                loop_count: lc,
                ..a
            }
        } else {
            AnimModel { current_frame: 0, frame_start_ms: now_ms, loop_count: lc, ..a }
        }
    } else {
        AnimModel { current_frame: a.current_frame + 1, frame_start_ms: now_ms, ..a }
    }
}

impl ActiveAnimation {
    /// Promote `frames` to the playing animation for `anim_type`,
    /// starting at frame 0 at `now_ms`.
    pub fn new(anim_type: AnimationType, frames: Arc<Vec<AnimationFrame>>, now_ms: u64) -> (a:
        ActiveAnimation)
        requires
            frames@.len() > 0,
        ensures
            a@ == started_anim(anim_type, frames_view(frames@), now_ms),
            anim_wf(a@),
    {
        ActiveAnimation {
            anim_type,
            frames,
            current_frame: 0,
            frame_start_ms: now_ms,
            loop_count: 0,
            max_loops: if anim_type.is_infinite() {
                None
            } else {
                Some(1)
            },
        }
    }

    /// Whether the current frame's display time has elapsed at `now_ms`.
    /// Pure: no state changes.
    pub fn should_advance(&self, now_ms: u64) -> (b: bool)
        requires
            anim_wf(self@),
        ensures
            b == spec_should_advance(self@, now_ms),
    {
        let frame_duration = self.frames[self.current_frame].duration_ms;
        now_ms.saturating_sub(self.frame_start_ms) >= frame_duration
    }

    /// Step to the next frame at `now_ms` and report whether the
    /// animation completed. An infinite animation (no maximum loop
    /// count) never reports completion; a completing step holds on the
    /// last frame.
    pub fn advance(&mut self, now_ms: u64) -> (completed: bool)
        requires
            anim_wf(old(self)@),
        ensures
            completed == advance_completed(old(self)@),
            final(self)@ == advanced_anim(old(self)@, now_ms),
            anim_wf(final(self)@),
    {
        let len = self.frames.len();
        self.current_frame = self.current_frame + 1;

        if self.current_frame >= len {
            self.loop_count = self.loop_count.saturating_add(1);

            if let Some(max) = self.max_loops {
                if self.loop_count >= max {
                    self.current_frame = len - 1;
                    self.frame_start_ms = now_ms;
                    return true;
                }
            }

            self.current_frame = 0;
        }

        self.frame_start_ms = now_ms;
        false
    }

    /// The currently displayed frame.
    pub fn current_frame_ref(&self) -> (f: &AnimationFrame)
        requires
            anim_wf(self@),
        ensures
            f@ == self@.frames[self@.current_frame],
    {
        &self.frames[self.current_frame]
    }
}

/// A pending ask: the kind, its derived priority, and the derived
/// may-preempt flag (true exactly when the priority is Action or
/// higher). The flag is informational: the replace-or-enqueue outcome
/// depends on the priority comparison alone.
#[derive(Clone, Copy, Debug, PartialEq, Eq, Structural)]
pub struct AnimationRequest {
    pub anim_type: AnimationType,
    pub priority: AnimationPriority,
    pub interrupt_lower: bool,
}

/// The request built for a kind.
pub open spec fn request_of(kind: AnimationType) -> AnimationRequest {
    AnimationRequest {
        anim_type: kind,
        priority: kind.spec_priority(),
        interrupt_lower: kind.spec_priority().spec_rank()
            >= AnimationPriority::Action.spec_rank(),
    }
}

/// The particle models of an executable particle list.
pub open spec fn particles_view(s: Seq<Particle>) -> Seq<ParticleModel> {
    s.map_values(|p: Particle| p@)
}

/// The particles spawned at the anchor from a frame's templates, in
/// template order.
pub open spec fn spawned_particles(specs: Seq<ParticleSpec>) -> Seq<ParticleModel> {
    specs.map_values(|sp: ParticleSpec| spawned(sp, PARTICLE_ANCHOR_X, PARTICLE_ANCHOR_Y))
}

/// Every particle aged by `dt_ms` milliseconds.
pub open spec fn aged(s: Seq<ParticleModel>, dt_ms: u64) -> Seq<ParticleModel> {
    s.map_values(|p: ParticleModel| ParticleModel { age_ms: age_after(p.age_ms, dt_ms), ..p })
}

/// The live particles, in order: those whose age has not reached their
/// lifetime.
pub open spec fn pruned(s: Seq<ParticleModel>) -> Seq<ParticleModel> {
    s.filter(|p: ParticleModel| particle_live(p))
}

/// Whether a request for `kind` preempts the current animation: it does
/// when nothing is playing, or when its priority strictly outranks the
/// playing animation's.
pub open spec fn preempts(kind: AnimationType, cur: Option<AnimModel>) -> bool {
    match cur {
        None => true,
        Some(a) => kind.spec_priority().spec_rank() > a.anim_type.spec_priority().spec_rank(),
    }
}

/// The mathematical value of an `AnimationEngine`.
pub ghost struct EngineModel {
    pub current: Option<AnimModel>,
    pub queue: Seq<AnimationRequest>,
    pub particles: Seq<ParticleModel>,
    pub last_update_ms: u64,
}

/// What `request` does: a strictly higher-priority request replaces the
/// current animation immediately (spawning frame 0's particles); any
/// other request while something is playing joins the back of the FIFO
/// queue and disturbs nothing.
pub open spec fn engine_request_post(
    pre: EngineModel,
    post: EngineModel,
    kind: AnimationType,
    now_ms: u64,
) -> bool {
    &&& post.last_update_ms == pre.last_update_ms
    &&& if preempts(kind, pre.current) {
        &&& post.queue == pre.queue
        &&& post.current matches Some(a) && started_ok(a, kind, now_ms) && post.particles
            == pre.particles + spawned_particles(a.frames[0].particles)
    } else {
        &&& post.current == pre.current
        &&& post.queue == pre.queue.push(request_of(kind))
        &&& post.particles == pre.particles
    }
}

/// What promotion does when nothing is playing: the front of the queue
/// is promoted if there is one, and otherwise the default infinite idle
/// kind is; either way the promoted animation starts at frame 0 at
/// `now_ms`, its frame 0 particles join `mid_particles`, and the whole
/// list is then aged by `dt_ms` and pruned.
pub open spec fn promotion_post(
    pre_queue: Seq<AnimationRequest>,
    mid_particles: Seq<ParticleModel>,
    post: EngineModel,
    now_ms: u64,
    dt_ms: u64,
) -> bool {
    let kind = if pre_queue.len() > 0 {
        pre_queue[0].anim_type
    } else {
        AnimationType::IdleNeutral
    };
    &&& post.queue == if pre_queue.len() > 0 {
        pre_queue.skip(1)
    } else {
        pre_queue
    }
    &&& post.current matches Some(a) && started_ok(a, kind, now_ms) && post.particles == pruned(
        aged(mid_particles + spawned_particles(a.frames[0].particles), dt_ms),
    )
}

/// What one `update` call does, as a relation between the engine before
/// and after. With `dt` the time since the last update: an idle engine
/// promotes from the queue (or falls back to the default idle loop); a
/// playing animation whose frame has not expired is left alone; an
/// expired frame advances once, spawning the new current frame's
/// particles, and a completing advance additionally clears the animation
/// and promotes in the same call. The particle list is always aged by
/// `dt` and pruned, even when no animation changed.
pub open spec fn engine_update_post(pre: EngineModel, post: EngineModel, now_ms: u64) -> bool {
    let dt = now_ms.saturating_sub(pre.last_update_ms);
    &&& post.last_update_ms == now_ms
    &&& match pre.current {
        None => promotion_post(pre.queue, pre.particles, post, now_ms, dt),
        Some(a) => {
            if !spec_should_advance(a, now_ms) {
                &&& post.current == pre.current
                &&& post.queue == pre.queue
                &&& post.particles == pruned(aged(pre.particles, dt))
            } else {
                let a2 = advanced_anim(a, now_ms);
                let mid = pre.particles + spawned_particles(
                    a2.frames[a2.current_frame].particles,
                );
                if !advance_completed(a) {
                    &&& post.current == Some(a2)
                    &&& post.queue == pre.queue
                    &&& post.particles == pruned(aged(mid, dt))
                } else {
                    promotion_post(pre.queue, mid, post, now_ms, dt)
                }
            }
        }
    }
}

/// Spawn one particle at the anchor from every template in `specs`,
/// appending them to `dst` in template order.
fn spawn_all(dst: &mut Vec<Particle>, specs: &Vec<ParticleSpec>)
    ensures
        particles_view(final(dst)@) == particles_view(old(dst)@) + spawned_particles(specs@),
{
    let n = specs.len();
    let mut i: usize = 0;
    while i < n
        invariant
            i <= n,
            n == specs@.len(),
            particles_view(dst@) =~= particles_view(old(dst)@) + spawned_particles(
                specs@.take(i as int),
            ),
        decreases n - i,
    {
        let ghost prev = dst@;
        dst.push(Particle::new(specs[i], PARTICLE_ANCHOR_X, PARTICLE_ANCHOR_Y));
        proof {
            assert(particles_view(dst@) =~= particles_view(prev).push(
                spawned(specs@[i as int], PARTICLE_ANCHOR_X, PARTICLE_ANCHOR_Y),
            ));
            assert(particles_view(old(dst)@) + spawned_particles(specs@.take(i + 1))
                =~= (particles_view(old(dst)@) + spawned_particles(specs@.take(i as int))).push(
                spawned(specs@[i as int], PARTICLE_ANCHOR_X, PARTICLE_ANCHOR_Y),
            ));
        }
        i = i + 1;
    }
    proof {
        assert(specs@.take(n as int) =~= specs@);
        assert(particles_view(dst@) =~= particles_view(old(dst)@) + spawned_particles(specs@));
    }
}

/// The animation engine: at most one playing animation, a FIFO backlog
/// of pending requests, the live particles, the last update timestamp,
/// and the compiled-in frame library.
pub struct AnimationEngine {
    current: Option<ActiveAnimation>,
    queue: VecDeque<AnimationRequest>,
    particles: Vec<Particle>,
    last_update_ms: u64,
    frame_cache: FrameCache,
}

impl View for AnimationEngine {
    type V = EngineModel;

    closed spec fn view(&self) -> EngineModel {
        EngineModel {
            current: match self.current {
                Some(a) => Some(a@),
                None => None,
            },
            queue: self.queue@,
            particles: particles_view(self.particles@),
            last_update_ms: self.last_update_ms,
        }
    }
}

impl AnimationEngine {
    /// The engine's invariant: the frame library is the authored one and
    /// the playing animation's frame index is in bounds.
    pub closed spec fn wf(&self) -> bool {
        &&& self.frame_cache.wf()
        &&& match self@.current {
            Some(a) => anim_wf(a),
            None => true,
        }
    }

    /// A fresh engine: nothing playing, an empty queue, no particles,
    /// and `now_ms` recorded as the last update time.
    pub fn new(now_ms: u64) -> (e: AnimationEngine)
        ensures
            e.wf(),
            e@.current is None,
            e@.queue == Seq::<AnimationRequest>::empty(),
            e@.particles == Seq::<ParticleModel>::empty(),
            e@.last_update_ms == now_ms,
    {
        let e = AnimationEngine {
            current: None,
            queue: VecDeque::new(),
            particles: Vec::new(),
            last_update_ms: now_ms,
            frame_cache: FrameCache::new(),
        };
        proof {
            assert(particles_view(e.particles@) =~= Seq::<ParticleModel>::empty());
        }
        e
    }

    /// Ask for `kind` to play. A request whose priority strictly
    /// outranks the playing animation's replaces it immediately; any
    /// other request while something is playing joins the back of the
    /// queue. When nothing is playing the request is promoted at once.
    pub fn request(&mut self, anim_type: AnimationType, now_ms: u64)
        requires
            old(self).wf(),
        ensures
            final(self).wf(),
            engine_request_post(old(self)@, final(self)@, anim_type, now_ms),
    {
        let request = AnimationRequest {
            anim_type,
            priority: anim_type.priority(),
            interrupt_lower: anim_type.priority().rank() >= AnimationPriority::Action.rank(),
        };

        let cur_rank: Option<u8> = match &self.current {
            Some(c) => Some(c.anim_type.priority().rank()),
            None => None,
        };

        match cur_rank {
            Some(cr) => {
                if request.interrupt_lower && request.priority.rank() > cr {
                    self.interrupt_current();
                    self.start_animation(request, now_ms);
                } else if request.priority.rank() <= cr {
                    self.queue.push_back(request);
                } else {
                    self.start_animation(request, now_ms);
                }
            },
            None => {
                self.start_animation(request, now_ms);
            },
        }
    }

    /// Promote `request` to the playing animation and spawn its first
    /// frame's particles.
    fn start_animation(&mut self, request: AnimationRequest, now_ms: u64)
        requires
            old(self).wf(),
        ensures
            final(self).wf(),
            final(self)@.last_update_ms == old(self)@.last_update_ms,
            final(self)@.queue == old(self)@.queue,
            final(self)@.current matches Some(a) && started_ok(a, request.anim_type, now_ms)
                && final(self)@.particles == old(self)@.particles + spawned_particles(
                a.frames[0].particles,
            ),
    {
        let frames = self.frame_cache.load(request.anim_type);
        let anim = ActiveAnimation::new(request.anim_type, frames, now_ms);
        {
            let f = anim.current_frame_ref();
            spawn_all(&mut self.particles, &f.particles);
        }
        self.current = Some(anim);
    }

    /// Discard the playing animation, with no completion and no
    /// transition.
    fn interrupt_current(&mut self)
        ensures
            final(self)@.current is None,
            final(self)@.queue == old(self)@.queue,
            final(self)@.particles == old(self)@.particles,
            final(self)@.last_update_ms == old(self)@.last_update_ms,
            old(self).wf() ==> final(self).wf(),
    {
        if let Some(_current) = self.current.take() {}
    }

    /// One engine tick at `now_ms`: advance the playing animation if its
    /// frame has expired (at most one frame per tick), spawn the frame's
    /// particles, retire a completed one-shot and promote the next
    /// request (or the default idle loop), and age and prune every
    /// particle.
    pub fn update(&mut self, now_ms: u64)
        requires
            old(self).wf(),
        ensures
            final(self).wf(),
            engine_update_post(old(self)@, final(self)@, now_ms),
    {
        let dt = now_ms.saturating_sub(self.last_update_ms);
        self.last_update_ms = now_ms;

        let cur = self.current.take();
        match cur {
            Some(mut anim) => {
                if anim.should_advance(now_ms) {
                    let completed = anim.advance(now_ms);
                    {
                        let f = anim.current_frame_ref();
                        spawn_all(&mut self.particles, &f.particles);
                    }
                    if completed {
                        self.start_next_from_queue(now_ms);
                    } else {
                        self.current = Some(anim);
                    }
                } else {
                    self.current = Some(anim);
                }
            },
            None => {
                self.start_next_from_queue(now_ms);
            },
        }

        self.update_particles(dt);
    }

    /// Promote the front of the queue, or the default infinite idle
    /// loop when the queue is empty.
    fn start_next_from_queue(&mut self, now_ms: u64)
        requires
            old(self).wf(),
            old(self)@.current is None,
        ensures
            final(self).wf(),
            final(self)@.last_update_ms == old(self)@.last_update_ms,
            final(self)@.queue == if old(self)@.queue.len() > 0 {
                old(self)@.queue.skip(1)
            } else {
                old(self)@.queue
            },
            final(self)@.current matches Some(a) && started_ok(
                a,
                if old(self)@.queue.len() > 0 {
                    old(self)@.queue[0].anim_type
                } else {
                    AnimationType::IdleNeutral
                },
                now_ms,
            ) && final(self)@.particles == old(self)@.particles + spawned_particles(
                a.frames[0].particles,
            ),
    {
        match self.queue.pop_front() {
            Some(request) => {
                self.start_animation(request, now_ms);
            },
            None => {
                let request = AnimationRequest {
                    anim_type: AnimationType::IdleNeutral,
                    priority: AnimationType::IdleNeutral.priority(),
                    interrupt_lower: false,
                };
                self.start_animation(request, now_ms);
            },
        }
    }

    /// Age every particle by `dt_ms` and remove the ones whose lifetime
    /// has elapsed, keeping the survivors in order.
    fn update_particles(&mut self, dt_ms: u64)
        requires
            old(self).wf(),
        ensures
            final(self).wf(),
            final(self)@.particles == pruned(aged(old(self)@.particles, dt_ms)),
            final(self)@.current == old(self)@.current,
            final(self)@.queue == old(self)@.queue,
            final(self)@.last_update_ms == old(self)@.last_update_ms,
    {
        let mut kept: Vec<Particle> = Vec::new();
        let n = self.particles.len();
        let mut i: usize = 0;
        while i < n
            invariant
                i <= n,
                n == self.particles@.len(),
                *self == *old(self),
                particles_view(kept@) =~= pruned(
                    aged(particles_view(self.particles@).take(i as int), dt_ms),
                ),
            decreases n - i,
        {
            let ghost pv = particles_view(self.particles@);
            let ghost s = aged(pv.take(i as int), dt_ms);
            let mut p = self.particles[i];
            p.update(dt_ms);
            let ghost x = p@;
            if p.is_alive() {
                kept.push(p);
            }
            proof {
                reveal(Seq::filter);
                assert(aged(pv.take(i + 1), dt_ms) =~= s.push(x));
                let t = s.push(x);
                assert(t.drop_last() =~= s);
                assert(t.last() == x);
                if particle_live(x) {
                    assert(pruned(t) =~= pruned(s).push(x));
                } else {
                    assert(pruned(t) =~= pruned(s));
                }
            }
            i = i + 1;
        }
        proof {
            let pv = particles_view(self.particles@);
            assert(pv.take(n as int) =~= pv);
        }
        self.particles = kept;
    }

    /// The art rows of the currently displayed frame, or `None` when
    /// nothing has played yet. Side-effect free.
    pub fn current_art(&self) -> (r: Option<&Vec<String>>)
        requires
            self.wf(),
        ensures
            match self@.current {
                Some(a) => r matches Some(art) && art.deep_view() == a.frames[
                    a.current_frame
                ].art,
                None => r is None,
            },
    {
        match &self.current {
            Some(anim) => Some(&anim.current_frame_ref().art),
            None => None,
        }
    }

    /// The kind of the playing animation, if any. Side-effect free.
    pub fn current_type(&self) -> (r: Option<AnimationType>)
        ensures
            r == match self@.current {
                Some(a) => Some(a.anim_type),
                None => None::<AnimationType>,
            },
    {
        match &self.current {
            Some(anim) => Some(anim.anim_type),
            None => None,
        }
    }

    /// The live particles, for rendering. Side-effect free.
    pub fn particles(&self) -> (r: &Vec<Particle>)
        ensures
            particles_view(r@) == self@.particles,
    {
        &self.particles
    }

    /// The color override of the currently displayed frame, if any.
    /// Side-effect free.
    pub fn current_color(&self) -> (r: Option<Color>)
        requires
            self.wf(),
        ensures
            r == match self@.current {
                Some(a) => a.frames[a.current_frame].color_override,
                None => None::<Color>,
            },
    {
        match &self.current {
            Some(anim) => anim.current_frame_ref().color_override,
            None => None,
        }
    }
}

/// Promoting a request while an animation is playing: a strictly
/// higher-priority request replaces the playing animation with a fresh
/// one of the requested kind and leaves the queue alone; any other
/// request grows the queue by exactly one and leaves the playing
/// animation and the particles untouched.
pub proof fn lemma_request_policy(
    pre: EngineModel,
    post: EngineModel,
    kind: AnimationType,
    now_ms: u64,
)
    requires
        engine_request_post(pre, post, kind, now_ms),
        pre.current is Some,
    ensures
        kind.spec_priority().spec_rank() > pre.current.unwrap().anim_type.spec_priority().spec_rank()
            ==> (post.current matches Some(b) && started_ok(b, kind, now_ms) && post.queue
            == pre.queue),
        kind.spec_priority().spec_rank()
            <= pre.current.unwrap().anim_type.spec_priority().spec_rank() ==> (post.current
            == pre.current && post.queue.len() == pre.queue.len() + 1 && post.particles
            == pre.particles),
{
}

/// A one-shot animation whose final frame has run out its duration is
/// retired by the next `update`: the engine falls through to the front
/// of the queue, or to the default infinite idle kind if the queue is
/// empty.
pub proof fn lemma_one_shot_falls_through(pre: EngineModel, post: EngineModel, now_ms: u64)
    requires
        engine_update_post(pre, post, now_ms),
        pre.current matches Some(a) && anim_wf(a) && a.current_frame == a.frames.len() - 1
            && a.max_loops == Some(1u32) && spec_should_advance(a, now_ms),
    ensures
        post.current matches Some(b) && started_ok(
            b,
            if pre.queue.len() > 0 {
                pre.queue[0].anim_type
            } else {
                AnimationType::IdleNeutral
            },
            now_ms,
        ),
        post.queue == if pre.queue.len() > 0 {
            pre.queue.skip(1)
        } else {
            pre.queue
        },
{
}

/// An infinite animation (one with no maximum loop count) never reports
/// completion, however many times it is advanced.
pub proof fn lemma_infinite_never_completes(a: AnimModel)
    requires
        a.max_loops is None,
    ensures
        !advance_completed(a),
{
}

/// The animation after `k` consecutive `advance` steps, each stamped
/// `now_ms`.
pub open spec fn advanced_k(a: AnimModel, k: nat, now_ms: u64) -> AnimModel
    decreases k,
{
    if k == 0 {
        a
    } else {
        advanced_anim(advanced_k(a, (k - 1) as nat, now_ms), now_ms)
    }
}

/// An infinite animation cycles its frame sequence forever: after `k`
/// advances its frame index is the starting index plus `k`, modulo the
/// sequence length, so the index cycles with period equal to the frame
/// count.
pub proof fn lemma_infinite_cycles(a: AnimModel, k: nat, now_ms: u64)
    requires
        a.max_loops is None,
        anim_wf(a),
    ensures
        anim_wf(advanced_k(a, k, now_ms)),
        advanced_k(a, k, now_ms).current_frame == (a.current_frame + k) % (a.frames.len() as int),
        advanced_k(a, k, now_ms).frames == a.frames,
        advanced_k(a, k, now_ms).max_loops is None,
    decreases k,
{
    let len = a.frames.len() as int;
    if k == 0 {
        vstd::arithmetic::div_mod::lemma_small_mod(a.current_frame as nat, len as nat);
    } else {
        lemma_infinite_cycles(a, (k - 1) as nat, now_ms);
        let b = advanced_k(a, (k - 1) as nat, now_ms);
        let x = a.current_frame + k - 1;
        assert(b.current_frame == x % len);
        vstd::arithmetic::div_mod::lemma_add_mod_noop(x, 1, len);
        if b.current_frame + 1 >= len {
            vstd::arithmetic::div_mod::lemma_mod_self_0(len);
            if len > 1 {
                vstd::arithmetic::div_mod::lemma_small_mod(1nat, len as nat);
            }
        } else {
            vstd::arithmetic::div_mod::lemma_small_mod((b.current_frame + 1) as nat, len as nat);
            if len > 1 {
                vstd::arithmetic::div_mod::lemma_small_mod(1nat, len as nat);
            }
        }
    }
}

} // verus!
