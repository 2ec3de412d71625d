//! Frames and particles: one timed visual step of an animation, the
//! template a frame uses to spawn decorative particles, and a live
//! particle instance.
//!
//! Positions and velocities are integer fixed-point values: a particle's
//! position is kept in micro-cells (one millionth of a character cell) and
//! a velocity in milli-cells per second, so that the position after `t`
//! milliseconds is exactly the spawn position plus velocity times `t`.

use vstd::prelude::*;

verus! {

/// A display color for frame art or a particle glyph.
#[derive(Clone, Copy, Debug, PartialEq, Eq, Structural)]
pub enum Color {
    Black,
    Red,
    Green,
    Yellow,
    Blue,
    Magenta,
    Cyan,
    Gray,
    DarkGray,
    White,
}

/// A template for spawning a particle: glyph, spawn offset from the
/// anchor in cells, velocity in milli-cells per second, lifetime in
/// milliseconds, and color.
#[derive(Clone, Copy, Debug, PartialEq, Eq, Structural)]
pub struct ParticleSpec {
    pub symbol: char,
    pub x_offset: i16,
    pub y_offset: i16,
    pub vx_milli: i16,
    pub vy_milli: i16,
    pub lifetime_ms: u32,
    pub color: Color,
}

/// One visual step of an animation: the art rows, how long the frame is
/// displayed, an optional color override, and the particle templates
/// spawned when the frame becomes current.
#[derive(Debug, Clone)]
pub struct AnimationFrame {
    pub art: Vec<String>,
    pub duration_ms: u64,
    pub color_override: Option<Color>,
    pub particles: Vec<ParticleSpec>,
}

/// The mathematical value of an `AnimationFrame`.
pub ghost struct FrameModel {
    pub art: Seq<Seq<char>>,
    pub duration_ms: u64,
    pub color_override: Option<Color>,
    pub particles: Seq<ParticleSpec>,
}

impl View for AnimationFrame {
    type V = FrameModel;

    open spec fn view(&self) -> FrameModel {
        FrameModel {
            art: self.art.deep_view(),
            duration_ms: self.duration_ms,
            color_override: self.color_override,
            particles: self.particles@,
        }
    }
}

impl AnimationFrame {
    /// A frame showing the given art rows for 100 ms, with no color
    /// override and no particle spawns.
    pub fn new(art: Vec<String>) -> (f: AnimationFrame)
        ensures
            f@ == (FrameModel {
                art: art.deep_view(),
                duration_ms: 100u64,
                color_override: None::<Color>,
                particles: Seq::<ParticleSpec>::empty(),
            }),
    {
        let f = AnimationFrame {
            art,
            duration_ms: 100,
            color_override: None,
            particles: Vec::new(),
        };
        proof {
            assert(f.particles@ =~= Seq::<ParticleSpec>::empty());
        }
        f
    }

    /// The same frame with the display duration replaced.
    pub fn with_duration(self, ms: u64) -> (f: AnimationFrame)
        ensures
            f@ == (FrameModel { duration_ms: ms, ..self@ }),
    {
        AnimationFrame { duration_ms: ms, ..self }
    }

    /// The same frame with the color override set.
    pub fn with_color(self, color: Color) -> (f: AnimationFrame)
        ensures
            f@ == (FrameModel { color_override: Some(color), ..self@ }),
    {
        AnimationFrame { color_override: Some(color), ..self }
    }
}

/// The spawn position on one axis, in micro-cells: the anchor plus the
/// spec's offset, scaled from cells to micro-cells.
pub open spec fn spawn_micro(base: u16, offset: i16) -> int {
    (base + offset) * 1_000_000
}

/// The position on one axis after `age_ms` milliseconds, in micro-cells:
/// milli-cells per second times milliseconds gives micro-cells.
pub open spec fn axis_micro(spawn: int, v_milli: int, age_ms: int) -> int {
    spawn + v_milli * age_ms
}

/// A micro-cell coordinate reduced to a whole cell, clamped to the range
/// of `u16`: negative values clamp to 0.
pub open spec fn cell_of_micro(v: int) -> u16 {
    if v <= 0 {
        0u16
    } else if v / 1_000_000 >= 65536 {
        65535u16
    } else {
        (v / 1_000_000) as u16
    }
}

/// The age of a particle after `dt_ms` more milliseconds have passed,
/// saturating at the largest `u32`.
pub open spec fn age_after(age_ms: u32, dt_ms: u64) -> u32 {
    if age_ms + dt_ms > u32::MAX {
        u32::MAX
    } else {
        (age_ms + dt_ms) as u32
    }
}

/// A live decorative particle: its spawning template, its spawn position
/// in micro-cells, and its accumulated age in milliseconds.
#[derive(Debug, Clone, Copy)]
pub struct Particle {
    pub spec: ParticleSpec,
    spawn_x_micro: i64,
    spawn_y_micro: i64,
    age_ms: u32,
}

/// The mathematical value of a `Particle`.
pub ghost struct ParticleModel {
    pub spec: ParticleSpec,
    pub spawn_x_micro: int,
    pub spawn_y_micro: int,
    pub age_ms: u32,
}

impl View for Particle {
    type V = ParticleModel;

    closed spec fn view(&self) -> ParticleModel {
        ParticleModel {
            spec: self.spec,
            spawn_x_micro: self.spawn_x_micro as int,
            spawn_y_micro: self.spawn_y_micro as int,
            age_ms: self.age_ms,
        }
    }
}

/// The model of a particle freshly spawned from `spec` at the anchor
/// `(base_x, base_y)`: positioned at the anchor plus the spec's offset,
/// with no accumulated age.
pub open spec fn spawned(spec: ParticleSpec, base_x: u16, base_y: u16) -> ParticleModel {
    ParticleModel {
        spec,
        spawn_x_micro: spawn_micro(base_x, spec.x_offset),
        spawn_y_micro: spawn_micro(base_y, spec.y_offset),
        age_ms: 0u32,
    }
}

/// Whether a particle is still live: its age has not reached its spec's
/// lifetime.
pub open spec fn particle_live(p: ParticleModel) -> bool {
    p.age_ms < p.spec.lifetime_ms
}

impl Particle {
    /// A particle freshly spawned from `spec` at the anchor
    /// `(base_x, base_y)`.
    pub fn new(spec: ParticleSpec, base_x: u16, base_y: u16) -> (p: Particle)
        ensures
            p@ == spawned(spec, base_x, base_y),
    {
        Particle {
            spawn_x_micro: (base_x as i64 + spec.x_offset as i64) * 1_000_000,
            spawn_y_micro: (base_y as i64 + spec.y_offset as i64) * 1_000_000,
            spec,
            age_ms: 0,
        }
    }

    /// Account for `dt_ms` more milliseconds having passed. Only the age
    /// changes; the position follows from the age.
    pub fn update(&mut self, dt_ms: u64)
        ensures
            final(self)@ == (ParticleModel { age_ms: age_after(old(self)@.age_ms, dt_ms), ..old(self)@ }),
    {
        let room: u32 = u32::MAX - self.age_ms;
        if dt_ms > room as u64 {
            self.age_ms = u32::MAX;
        } else {
            self.age_ms = self.age_ms + dt_ms as u32;
        }
    }

    /// Whether the particle is still live: its age has not reached its
    /// spec's lifetime.
    pub fn is_alive(&self) -> (b: bool)
        ensures
            b == particle_live(self@),
    {
        self.age_ms < self.spec.lifetime_ms
    }

    /// The particle's current cell position: the spawn position plus
    /// velocity times age, reduced to whole cells and clamped to the
    /// range of `u16`.
    pub fn position(&self) -> (r: (u16, u16))
        ensures
            r.0 == cell_of_micro(axis_micro(self@.spawn_x_micro, self@.spec.vx_milli as int, self@.age_ms as int)),
            r.1 == cell_of_micro(axis_micro(self@.spawn_y_micro, self@.spec.vy_milli as int, self@.age_ms as int)),
    {
        let x = Self::cell_from(self.spawn_x_micro, self.spec.vx_milli, self.age_ms);
        let y = Self::cell_from(self.spawn_y_micro, self.spec.vy_milli, self.age_ms);
        (x, y)
    }

    /// One axis of `position`.
    fn cell_from(spawn: i64, v_milli: i16, age_ms: u32) -> (c: u16)
        ensures
            c == cell_of_micro(axis_micro(spawn as int, v_milli as int, age_ms as int)),
    {
        proof {
            let vm = v_milli as int;
            let am = age_ms as int;
            assert(-0x8000 * 0xffff_ffff <= vm * am <= 0x7fff * 0xffff_ffff) by (nonlinear_arith)
                requires
                    -0x8000 <= vm <= 0x7fff,
                    0 <= am <= 0xffff_ffff,
            ;
        }
        let v: i128 = spawn as i128 + (v_milli as i128) * (age_ms as i128);
        if v <= 0 {
            0
        } else {
            let cells: u128 = (v as u128) / 1_000_000;
            if cells >= 65536 {
                65535
            } else {
                cells as u16
            }
        }
    }
}

/// Aging a particle in two steps is the same as aging it once by the
/// total: linear motion accumulates no drift across repeated updates.
pub proof fn lemma_age_additive(age_ms: u32, d1: u64, d2: u64)
    requires
        d1 + d2 <= u64::MAX,
    ensures
        age_after(age_after(age_ms, d1), d2) == age_after(age_ms, (d1 + d2) as u64),
{
}

/// A particle spawned from `spec` at the anchor `(base_x, base_y)` and
/// aged to `t` milliseconds sits, in micro-cells, exactly at
/// anchor + offset + velocity * t on each axis: linear motion.
pub proof fn lemma_particle_linear_motion(spec: ParticleSpec, base_x: u16, base_y: u16, t: u32)
    ensures
        ({
            let p = ParticleModel { age_ms: t, ..spawned(spec, base_x, base_y) };
            &&& axis_micro(p.spawn_x_micro, p.spec.vx_milli as int, p.age_ms as int) == (base_x
                + spec.x_offset) * 1_000_000 + spec.vx_milli * t
            &&& axis_micro(p.spawn_y_micro, p.spec.vy_milli as int, p.age_ms as int) == (base_y
                + spec.y_offset) * 1_000_000 + spec.vy_milli * t
        }),
{
}

} // verus!
