//! Renderable image regions and time-driven animations, together with the
//! draw-command surface they render to.
//!
//! A real window and its textures live outside the engine. Here a texture is
//! a handle plus its dimensions, and drawing is recorded as a queue of
//! [`DrawCommand`]s; the platform layer replays the queue against the actual
//! rendering context once a frame is complete.

use vstd::prelude::*;
use vstd::arithmetic::div_mod::{
    lemma_add_mod_noop, lemma_div_by_multiple, lemma_div_multiples_vanish_fancy,
    lemma_fundamental_div_mod, lemma_mod_division_less_than_divisor, lemma_mod_twice,
    lemma_small_mod,
};
use vstd::arithmetic::mul::{lemma_mul_is_commutative, lemma_mul_is_distributive_add};
use crate::phi::data::{Rectangle, COORD_BOUND};

verus! {

/// An RGB colour.
#[derive(Clone, Copy, PartialEq, Eq, Structural, Debug)]
pub struct Color {
    pub r: u8,
    pub g: u8,
    pub b: u8,
}

/// A texture held by the platform layer: an opaque handle plus the texture's
/// extents in millipixels.
#[derive(Clone, Copy, PartialEq, Eq, Structural, Debug)]
pub struct Texture {
    pub id: u64,
    pub width: i64,
    pub height: i64,
}

impl Texture {
    pub open spec fn wf(self) -> bool {
        &&& 0 <= self.width <= COORD_BOUND
        &&& 0 <= self.height <= COORD_BOUND
    }
}

/// One recorded drawing operation of the current frame.
#[derive(Clone, Copy, PartialEq, Eq, Structural, Debug)]
pub enum DrawCommand {
    /// Fill the whole output with a colour.
    Clear(Color),
    /// Fill `1` with colour `0`.
    FillRect(Color, Rectangle),
    /// Blit the `src` region of texture `tex`, scaled into `dst`.
    CopyRegion { tex: u64, src: Rectangle, dst: Rectangle },
}

/// The rendering surface: the logical output size and the draw commands
/// recorded so far this frame, plus the current draw colour.
pub struct Renderer {
    pub commands: Vec<DrawCommand>,
    pub draw_color: Color,
    /// Logical output width, in millipixels.
    pub out_w: i64,
    /// Logical output height, in millipixels.
    pub out_h: i64,
}

impl Renderer {
    pub open spec fn wf(self) -> bool {
        &&& 0 <= self.out_w <= COORD_BOUND
        &&& 0 <= self.out_h <= COORD_BOUND
    }

    /// A fresh surface with the given logical output size and no recorded
    /// commands.
    pub fn new(out_w: i64, out_h: i64) -> (r: Renderer)
        requires
            0 <= out_w <= COORD_BOUND,
            0 <= out_h <= COORD_BOUND,
        ensures
            r.wf(),
            r.commands@ =~= Seq::<DrawCommand>::empty(),
            r.draw_color == (Color { r: 0, g: 0, b: 0 }),
            r.out_w == out_w,
            r.out_h == out_h,
    {
        Renderer {
            commands: Vec::new(),
            draw_color: Color { r: 0, g: 0, b: 0 },
            out_w,
            out_h,
        }
    }

    /// Record the new logical output size (the platform layer calls this when
    /// the window is resized).
    pub fn set_output_size(&mut self, out_w: i64, out_h: i64)
        requires
            0 <= out_w <= COORD_BOUND,
            0 <= out_h <= COORD_BOUND,
        ensures
            *final(self) == (Renderer { out_w, out_h, ..*old(self) }),
    {
        self.out_w = out_w;
        self.out_h = out_h;
    }

    /// The logical output size, in millipixels.
    pub fn output_size(&self) -> (r: (i64, i64))
        ensures
            r == (self.out_w, self.out_h),
    {
        (self.out_w, self.out_h)
    }

    /// Set the colour used by `clear` and `fill_rect`.
    pub fn set_draw_color(&mut self, color: Color)
        ensures
            *final(self) == (Renderer { draw_color: color, ..*old(self) }),
    {
        self.draw_color = color;
    }

    /// Record a whole-output clear in the current draw colour.
    pub fn clear(&mut self)
        ensures
            *final(self) == (Renderer {
                commands: final(self).commands,
                ..*old(self)
            }),
            final(self).commands@ =~= old(self).commands@.push(
                DrawCommand::Clear(old(self).draw_color),
            ),
    {
        let c = self.draw_color;
        self.commands.push(DrawCommand::Clear(c));
    }

    /// Record a filled rectangle in the current draw colour.
    pub fn fill_rect(&mut self, rect: Rectangle)
        ensures
            *final(self) == (Renderer {
                commands: final(self).commands,
                ..*old(self)
            }),
            final(self).commands@ =~= old(self).commands@.push(
                DrawCommand::FillRect(old(self).draw_color, rect),
            ),
    {
        let c = self.draw_color;
        self.commands.push(DrawCommand::FillRect(c, rect));
    }

    /// Record a blit of the `src` region of `tex` into `dst`.
    pub fn copy_region(&mut self, tex: u64, src: Rectangle, dst: Rectangle)
        ensures
            *final(self) == (Renderer {
                commands: final(self).commands,
                ..*old(self)
            }),
            final(self).commands@ =~= old(self).commands@.push(
                DrawCommand::CopyRegion { tex, src, dst },
            ),
    {
        self.commands.push(DrawCommand::CopyRegion { tex, src, dst });
    }

    /// Hand the recorded frame over for replay, leaving the queue empty.
    pub fn drain_commands(&mut self) -> (r: Vec<DrawCommand>)
        ensures
            r@ =~= old(self).commands@,
            *final(self) == (Renderer {
                commands: final(self).commands,
                ..*old(self)
            }),
            final(self).commands@ =~= Seq::<DrawCommand>::empty(),
    {
        let mut taken: Vec<DrawCommand> = Vec::new();
        core::mem::swap(&mut taken, &mut self.commands);
        taken
    }
}

/// Anything that can draw itself into an area of the output as exactly one
/// draw command.
pub trait Renderable {
    /// When the component may be rendered at all.
    spec fn render_wf(&self) -> bool;

    /// The command that rendering into `dest` records.
    spec fn render_spec(&self, dest: Rectangle) -> DrawCommand;

    /// Draw into `dest`: records `render_spec(dest)` on the surface and
    /// changes nothing else about it.
    fn render(&self, renderer: &mut Renderer, dest: Rectangle)
        requires
            self.render_wf(),
        ensures
            *final(renderer) == (Renderer {
                commands: final(renderer).commands,
                ..*old(renderer)
            }),
            final(renderer).commands@ =~= old(renderer).commands@.push(
                self.render_spec(dest),
            ),
    ;
}

/// Blitting a renderable component through the surface itself.
pub trait CopySprite<T> {
    /// When the component may be copied.
    spec fn copy_sprite_req(&self, renderable: &T, dest: Rectangle) -> bool;

    /// How the surface after copying `renderable` into `dest` relates to the
    /// surface before.
    spec fn copy_sprite_rel(&self, renderable: &T, dest: Rectangle, after: &Self) -> bool;

    /// Draw `renderable` into the area `dest` of this surface.
    fn copy_sprite(&mut self, renderable: &T, dest: Rectangle)
        requires
            old(self).copy_sprite_req(renderable, dest),
        ensures
            old(self).copy_sprite_rel(renderable, dest, final(self)),
    ;
}

impl<T: Renderable> CopySprite<T> for Renderer {
    open spec fn copy_sprite_req(&self, renderable: &T, dest: Rectangle) -> bool {
        renderable.render_wf()
    }

    open spec fn copy_sprite_rel(&self, renderable: &T, dest: Rectangle, after: &Renderer) -> bool {
        &&& *after == (Renderer { commands: after.commands, ..*self })
        &&& after.commands@ =~= self.commands@.push(renderable.render_spec(dest))
    }

    fn copy_sprite(&mut self, renderable: &T, dest: Rectangle) {
        renderable.render(self, dest);
    }
}

/// An immutable view (source sub-rectangle) over a shared texture. Several
/// sprites may alias one texture; the texture itself is owned by the
/// platform layer and named here by its handle.
#[derive(Clone, Copy, PartialEq, Eq, Structural, Debug)]
pub struct Sprite {
    pub tex: u64,
    pub src: Rectangle,
}

impl Sprite {
    /// The source region lies at non-negative coordinates and within bounds,
    /// as every region derived from a whole texture does.
    pub open spec fn wf(self) -> bool {
        &&& 0 <= self.src.x
        &&& 0 <= self.src.y
        &&& 0 <= self.src.w
        &&& 0 <= self.src.h
        &&& self.src.x + self.src.w <= COORD_BOUND
        &&& self.src.y + self.src.h <= COORD_BOUND
    }

    /// A sprite covering the whole of `texture`.
    pub fn new(texture: Texture) -> (r: Sprite)
        requires
            texture.wf(),
        ensures
            r.tex == texture.id,
            r.src == (Rectangle { x: 0, y: 0, w: texture.width, h: texture.height }),
            r.wf(),
    {
        Sprite {
            tex: texture.id,
            src: Rectangle { x: 0, y: 0, w: texture.width, h: texture.height },
        }
    }

    /// `rect`, interpreted in this sprite's coordinate space, translated into
    /// the coordinates of the underlying texture.
    pub open spec fn spec_translated(self, rect: Rectangle) -> Rectangle {
        Rectangle {
            x: (rect.x + self.src.x) as i64,
            y: (rect.y + self.src.y) as i64,
            w: rect.w,
            h: rect.h,
        }
    }

    /// Derive a sub-sprite over the same texture. Fails exactly when `rect`,
    /// translated into the texture's coordinates, is not fully contained in
    /// this sprite's own source region — the sole guard against
    /// out-of-bounds sampling.
    pub fn region(&self, rect: Rectangle) -> (r: Option<Sprite>)
        requires
            self.wf(),
            rect.wf(),
        ensures
            r is Some <==> self.src.spec_contains(self.spec_translated(rect)),
            r matches Some(s) ==> s == (Sprite {
                tex: self.tex,
                src: self.spec_translated(rect),
            }) && s.wf(),
    {
        let new_src = Rectangle {
            x: rect.x + self.src.x,
            y: rect.y + self.src.y,
            w: rect.w,
            h: rect.h,
        };
        if self.src.contains(new_src) {
            Some(Sprite { tex: self.tex, src: new_src })
        } else {
            None
        }
    }

    /// The sprite's extents, in millipixels.
    pub fn size(&self) -> (r: (i64, i64))
        ensures
            r == (self.src.w, self.src.h),
    {
        (self.src.w, self.src.h)
    }
}

impl Renderable for Sprite {
    open spec fn render_wf(&self) -> bool {
        true
    }

    open spec fn render_spec(&self, dest: Rectangle) -> DrawCommand {
        DrawCommand::CopyRegion { tex: self.tex, src: self.src, dst: dest }
    }

    /// Blit the sprite's source region, scaled into `dest`.
    fn render(&self, renderer: &mut Renderer, dest: Rectangle) {
        renderer.copy_region(self.tex, self.src, dest);
    }
}

/// Upper bound on an animation's accumulated time, in milliseconds.
pub const TIME_BOUND: i64 = 1_000_000_000_000_000;

/// Upper bound on the per-frame display duration, in milliseconds.
pub const DELAY_BOUND: i64 = 1_000_000_000;

/// Upper bound on the number of frames of one animation.
pub const FRAME_LIMIT: usize = 1_000_000;

/// An ordered sequence of frames cycled through as time accumulates.
pub struct AnimatedSprite {
    /// The frames that will be rendered, in order.
    pub sprites: Vec<Sprite>,
    /// The time it takes to get from one frame to the next, in milliseconds.
    pub frame_delay: i64,
    /// The total time the sprite has been alive, in milliseconds, from which
    /// the current frame is derived.
    pub current_time: i64,
}

impl AnimatedSprite {
    /// At least one frame, a positive per-frame duration, accumulated time
    /// within bounds.
    pub open spec fn wf(self) -> bool {
        &&& 1 <= self.sprites@.len() <= FRAME_LIMIT
        &&& 1 <= self.frame_delay <= DELAY_BOUND
        &&& 0 <= self.current_time <= TIME_BOUND
    }

    /// A new animated sprite starting at time zero.
    pub fn new(sprites: Vec<Sprite>, frame_delay: i64) -> (r: AnimatedSprite)
        requires
            1 <= sprites@.len() <= FRAME_LIMIT,
            1 <= frame_delay <= DELAY_BOUND,
        ensures
            r == (AnimatedSprite { sprites, frame_delay, current_time: 0 }),
            r.wf(),
    {
        AnimatedSprite { sprites, frame_delay, current_time: 0 }
    }

    /// A new animated sprite that advances `fps` millihertz: equivalent to a
    /// per-frame duration of `1_000_000 / fps` milliseconds. A playback rate
    /// of zero is invalid, which `requires` rules out.
    pub fn new_with_fps(sprites: Vec<Sprite>, fps: i64) -> (r: AnimatedSprite)
        requires
            1 <= sprites@.len() <= FRAME_LIMIT,
            1 <= fps <= 1_000_000,
        ensures
            r == (AnimatedSprite {
                sprites,
                frame_delay: (1_000_000 as int / fps as int) as i64,
                current_time: 0,
            }),
            r.wf(),
    {
        let delay: i64 = (1_000_000u64 / (fps as u64)) as i64;
        proof {
            Self::lemma_fps_delay_bounds(fps as int);
        }
        AnimatedSprite { sprites, frame_delay: delay, current_time: 0 }
    }

    /// The number of frames in this animation.
    pub fn frame_count(&self) -> (r: usize)
        ensures
            r == self.sprites@.len(),
    {
        self.sprites.len()
    }

    /// Set the time it takes to get from one frame to the next.
    pub fn set_frame_delay(&mut self, frame_delay: i64)
        requires
            1 <= frame_delay <= DELAY_BOUND,
        ensures
            *final(self) == (AnimatedSprite { frame_delay, ..*old(self) }),
    {
        self.frame_delay = frame_delay;
    }

    /// Set the playback rate, in millihertz. A rate of zero is invalid,
    /// which `requires` rules out.
    pub fn set_fps(&mut self, fps: i64)
        requires
            1 <= fps <= 1_000_000,
        ensures
            *final(self) == (AnimatedSprite {
                frame_delay: (1_000_000 as int / fps as int) as i64,
                ..*old(self)
            }),
    {
        let delay: i64 = (1_000_000u64 / (fps as u64)) as i64;
        proof {
            Self::lemma_fps_delay_bounds(fps as int);
        }
        self.set_frame_delay(delay);
    }

    /// The accumulated time after adding `dt`: on wrap-under-zero the
    /// animation loops back to its last frame instead of going negative.
    pub open spec fn spec_add_time(self, dt: i64) -> AnimatedSprite {
        if self.current_time + dt < 0 {
            AnimatedSprite {
                current_time: ((self.sprites@.len() - 1) * self.frame_delay) as i64,
                ..self
            }
        } else {
            AnimatedSprite { current_time: (self.current_time + dt) as i64, ..self }
        }
    }

    /// Add `dt` milliseconds (possibly negative: time may be rewound) to the
    /// animation's accumulated time.
    pub fn add_time(&mut self, dt: i64)
        requires
            old(self).wf(),
            -TIME_BOUND <= dt <= TIME_BOUND,
            old(self).current_time + dt <= TIME_BOUND,
        ensures
            *final(self) == old(self).spec_add_time(dt),
            final(self).wf(),
    {
        proof {
            Self::lemma_last_frame_time_bounds(self.sprites@.len() as int, self.frame_delay as int);
        }
        self.current_time = self.current_time + dt;
        if self.current_time < 0 {
            self.current_time = (self.sprites.len() as i64 - 1) * self.frame_delay;
        }
    }

    /// A playback rate in `[1, 1_000_000]` millihertz gives a per-frame
/// duration in `[1, 1_000_000]` milliseconds.
proof fn lemma_fps_delay_bounds(fps: int)
    requires
        1 <= fps <= 1_000_000,
    ensures
        1 <= 1_000_000int / fps <= 1_000_000,
{
    assert(1 <= 1_000_000int / fps <= 1_000_000) by (nonlinear_arith)
        requires 1 <= fps <= 1_000_000;
}

/// The accumulated time of the last frame of a well-formed animation stays
/// within bounds.
proof fn lemma_last_frame_time_bounds(frames: int, delay: int)
    requires
        1 <= frames <= FRAME_LIMIT,
        1 <= delay <= DELAY_BOUND,
    ensures
        0 <= (frames - 1) * delay <= TIME_BOUND,
{
    assert(0 <= (frames - 1) * delay <= 1_000_000_000_000_000) by (nonlinear_arith)
        requires 1 <= frames <= 1_000_000 && 1 <= delay <= 1_000_000_000;
}

/// The index of the frame currently shown: accumulated time divided by
    /// the per-frame duration, cycled over the frames.
    pub open spec fn spec_current_frame(self) -> int {
        (self.current_time as int / self.frame_delay as int) % self.sprites@.len() as int
    }

    /// The index of the frame currently shown.
    pub fn current_frame(&self) -> (r: usize)
        requires
            self.wf(),
        ensures
            r == self.spec_current_frame(),
            r < self.sprites@.len(),
    {
        let ticks: u64 = (self.current_time as u64) / (self.frame_delay as u64);
        (ticks % (self.sprites.len() as u64)) as usize
    }
}

/// Law: adding `k` whole per-frame durations to an animation whose rewound
/// time does not wrap below zero advances the current frame index by exactly
/// `k`, cycling over the frames.
pub proof fn lemma_add_time_frame_cycle(s: AnimatedSprite, k: int)
    requires
        s.wf(),
        0 <= s.current_time + k * s.frame_delay <= TIME_BOUND,
        -TIME_BOUND <= k * s.frame_delay <= TIME_BOUND,
    ensures
        s.spec_add_time((k * s.frame_delay) as i64).spec_current_frame()
            == (s.spec_current_frame() + k) % (s.sprites@.len() as int),
{
    let c = s.current_time as int;
    let d = s.frame_delay as int;
    let n = s.sprites@.len() as int;
    let q = c / d;
    let r = c % d;
    let i = q % n;
    lemma_fundamental_div_mod(c, d);
    lemma_mod_division_less_than_divisor(c, d);
    assert(d * (q + k) == d * q + d * k) by {
        lemma_mul_is_distributive_add(d, q, k);
    }
    lemma_mul_is_commutative(k, d);
    assert(c + k * d == d * (q + k) + r);
    lemma_div_multiples_vanish_fancy(q + k, r, d);
    assert((c + k * d) / d == q + k);
    lemma_add_mod_noop(q, k, n);
    lemma_add_mod_noop(i, k, n);
    lemma_mod_twice(q, n);
    assert((q + k) % n == (i + k) % n);
}

/// Law: rewinding an animation that sits at time zero loops it to its last
/// frame instead of letting the time go negative.
pub proof fn lemma_rewind_from_zero_wraps_to_last(s: AnimatedSprite, dt: i64)
    requires
        s.wf(),
        s.current_time == 0,
        -TIME_BOUND <= dt < 0,
    ensures
        s.spec_add_time(dt).spec_current_frame() == s.sprites@.len() - 1,
{
    let d = s.frame_delay as int;
    let n = s.sprites@.len() as int;
    AnimatedSprite::lemma_last_frame_time_bounds(n, d);
    assert(s.spec_add_time(dt).current_time == (n - 1) * d);
    lemma_div_by_multiple(n - 1, d);
    assert(((n - 1) * d) / d == n - 1);
    lemma_small_mod((n - 1) as nat, n as nat);
}

impl Renderable for AnimatedSprite {
    open spec fn render_wf(&self) -> bool {
        self.wf()
    }

    open spec fn render_spec(&self, dest: Rectangle) -> DrawCommand {
        DrawCommand::CopyRegion {
            tex: self.sprites@[self.spec_current_frame()].tex,
            src: self.sprites@[self.spec_current_frame()].src,
            dst: dest,
        }
    }

    /// Blit the current frame, scaled into `dest`.
    fn render(&self, renderer: &mut Renderer, dest: Rectangle) {
        let idx = self.current_frame();
        let frame = self.sprites[idx];
        renderer.copy_region(frame.tex, frame.src, dest);
    }
}

} // verus!
