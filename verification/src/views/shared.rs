//! Parallax background layers shared between views.
//!
//! A layer owns a scroll position and velocity over one sprite; at render
//! time the sprite is tiled left to right, scaled to the window height,
//! starting at the negative scroll offset, until the strip covers the window
//! width. Three layers of increasing velocity compose one backdrop.

use vstd::prelude::*;
use vstd::arithmetic::div_mod::{
    lemma_div_by_self, lemma_div_is_ordered, lemma_div_nonincreasing, lemma_div_pos_is_pos,
};
use crate::phi::data::{Rectangle, SCREEN_BOUND};
use crate::phi::gfx::{DrawCommand, Renderable, Renderer, Sprite};

verus! {

/// Upper bound on a background's scroll velocity, in millipixels per second.
pub const BG_VEL_BOUND: i64 = 1_000_000;

/// Upper bound on the elapsed time handed to one render call, in
/// milliseconds.
pub const BG_DT_BOUND: i64 = 1_000_000;

/// A horizontally tiling, auto-scrolling sprite layer.
#[derive(Clone, Copy, Debug)]
pub struct Background {
    /// The current scroll position, in millipixels of the sprite's own
    /// coordinate space.
    pub pos: i64,
    /// The number of millipixels the layer scrolls left every second.
    pub vel: i64,
    pub sprite: Sprite,
}

/// The commands that tile `src` of `tex` from `left` rightwards in steps of
/// `step` until the window width `win_w` is covered, each tile scaled to the
/// window height `win_h`.
pub open spec fn bg_tiles(
    tex: u64,
    src: Rectangle,
    left: int,
    step: int,
    win_w: int,
    win_h: int,
) -> Seq<DrawCommand>
    decreases (if win_w - left >= 0 { win_w - left } else { 0 }),
    when step >= 1
{
    if left >= win_w {
        Seq::<DrawCommand>::empty()
    } else {
        seq![
            DrawCommand::CopyRegion {
                tex,
                src,
                dst: Rectangle { x: left as i64, y: 0, w: step as i64, h: win_h as i64 },
            },
        ] + bg_tiles(tex, src, left + step, step, win_w, win_h)
    }
}

/// Scaling a non-negative extent by the window height stays within the
/// squared screen bound, and a strip at least as wide as the sprite is tall
/// scales to at least one millipixel.
proof fn lemma_scale_bounds(v: int, h: int, win_h: int)
    requires
        0 <= v <= SCREEN_BOUND,
        1 <= h <= SCREEN_BOUND,
        0 <= win_h <= SCREEN_BOUND,
    ensures
        0 <= v * win_h <= SCREEN_BOUND * SCREEN_BOUND,
        0 <= v * win_h / h <= SCREEN_BOUND * SCREEN_BOUND,
        v * win_h >= h ==> v * win_h / h >= 1,
{
    assert(0 <= v * win_h <= SCREEN_BOUND * SCREEN_BOUND) by (nonlinear_arith)
        requires 0 <= v <= SCREEN_BOUND && 0 <= win_h <= SCREEN_BOUND && SCREEN_BOUND == 100_000_000;
    lemma_div_pos_is_pos(v * win_h, h);
    lemma_div_nonincreasing(v * win_h, h);
    if v * win_h >= h {
        lemma_div_by_self(h);
        lemma_div_is_ordered(h, v * win_h, h);
    }
}

impl Background {
    /// Positive sprite extents within screen bounds, scroll position within
    /// one tile, bounded velocity.
    pub open spec fn wf(self) -> bool {
        &&& self.sprite.wf()
        &&& 1 <= self.sprite.src.w <= SCREEN_BOUND
        &&& 1 <= self.sprite.src.h <= SCREEN_BOUND
        &&& 0 <= self.pos < self.sprite.src.w
        &&& 0 <= self.vel <= BG_VEL_BOUND
    }

    /// The scroll position after `elapsed` milliseconds: the position
    /// accumulates `vel * elapsed` and wraps modulo the sprite's width.
    pub open spec fn spec_scroll_pos(self, elapsed: i64) -> int {
        (self.pos as int + (self.vel as int * elapsed as int) / 1000) % (
        self.sprite.src.w as int)
    }

    /// The width of one tile once scaled to the window height.
    pub open spec fn spec_tile_step(self, win_h: int) -> int {
        self.sprite.src.w as int * win_h / self.sprite.src.h as int
    }

    /// The commands one render call records, given the already-scrolled
    /// layer and the window size.
    pub open spec fn spec_render_commands(self, win_w: int, win_h: int) -> Seq<DrawCommand> {
        bg_tiles(
            self.sprite.tex,
            self.sprite.src,
            -(self.pos as int * win_h / self.sprite.src.h as int),
            self.spec_tile_step(win_h),
            win_w,
            win_h,
        )
    }

    /// Advance the scroll position by `elapsed` milliseconds and tile the
    /// layer across the window: as many copies as it takes to cover the
    /// window width, each scaled to the full window height, starting at the
    /// negative scroll offset.
    pub fn render(&mut self, renderer: &mut Renderer, elapsed: i64)
        requires
            old(self).wf(),
            old(renderer).wf(),
            old(renderer).out_w <= SCREEN_BOUND,
            old(renderer).out_h <= SCREEN_BOUND,
            0 <= elapsed <= BG_DT_BOUND,
            // the scaled tile is at least one millipixel wide
            old(self).sprite.src.w * old(renderer).out_h >= old(self).sprite.src.h,
        ensures
            *final(self) == (Background {
                pos: old(self).spec_scroll_pos(elapsed) as i64,
                ..*old(self)
            }),
            final(self).wf(),
            *final(renderer) == (Renderer {
                commands: final(renderer).commands,
                ..*old(renderer)
            }),
            final(renderer).commands@ =~= old(renderer).commands@
                + final(self).spec_render_commands(
                old(renderer).out_w as int,
                old(renderer).out_h as int,
            ),
    {
        // Advance the logical position: it depends only on time and the
        // sprite's own dimensions, not on the screen size, and wraps modulo
        // the sprite's width.
        proof {
            assert(0 <= self.vel as int * elapsed as int <= 1_000_000_000_000int)
                by (nonlinear_arith)
                requires 0 <= self.vel <= 1_000_000 && 0 <= elapsed <= 1_000_000;
            lemma_div_pos_is_pos(self.vel as int * elapsed as int, 1000);
            lemma_div_is_ordered(
                self.vel as int * elapsed as int,
                1_000_000_000_000,
                1000,
            );
            vstd::arithmetic::div_mod::lemma_mod_division_less_than_divisor(
                self.pos as int + self.vel as int * elapsed as int / 1000,
                self.sprite.src.w as int,
            );
        }
        let delta = ((self.vel as u64) * (elapsed as u64) / 1000) as i64;
        self.pos = (((self.pos + delta) as u64) % (self.sprite.src.w as u64)) as i64;

        let (win_w, win_h) = renderer.output_size();
        proof {
            lemma_scale_bounds(
                self.sprite.src.w as int,
                self.sprite.src.h as int,
                win_h as int,
            );
            lemma_scale_bounds(self.pos as int, self.sprite.src.h as int, win_h as int);
        }
        let step = ((self.sprite.src.w as u64) * (win_h as u64) / (self.sprite.src.h as u64))
            as i64;
        let scaled_pos = ((self.pos as u64) * (win_h as u64) / (self.sprite.src.h as u64)) as i64;
        let mut physical_left: i64 = 0 - scaled_pos;

        proof {
            assert(step as int == self.spec_tile_step(win_h as int));
            assert(physical_left as int == -(self.pos as int * win_h as int
                / self.sprite.src.h as int));
        }
        let ghost start: int = physical_left as int;
        let ghost base: Seq<DrawCommand> = renderer.commands@;
        let ghost full: Seq<DrawCommand> = self.spec_render_commands(
            win_w as int,
            win_h as int,
        );

        while physical_left < win_w
            invariant
                1 <= step <= SCREEN_BOUND * SCREEN_BOUND,
                start <= physical_left,
                physical_left <= win_w + step || physical_left == start,
                -SCREEN_BOUND * SCREEN_BOUND <= start,
                win_w <= SCREEN_BOUND,
                win_h <= SCREEN_BOUND,
                renderer.commands@ + bg_tiles(
                    self.sprite.tex,
                    self.sprite.src,
                    physical_left as int,
                    step as int,
                    win_w as int,
                    win_h as int,
                ) =~= base + full,
                *renderer == (Renderer { commands: renderer.commands, ..*old(renderer) }),
            decreases (if win_w - physical_left >= 0 { win_w - physical_left as int } else { 0 }),
        {
            let dst = Rectangle { x: physical_left, y: 0, w: step, h: win_h };
            let ghost before_cmds = renderer.commands@;
            self.sprite.render(renderer, dst);
            proof {
                assert(bg_tiles(
                    self.sprite.tex,
                    self.sprite.src,
                    physical_left as int,
                    step as int,
                    win_w as int,
                    win_h as int,
                ) =~= seq![
                    DrawCommand::CopyRegion { tex: self.sprite.tex, src: self.sprite.src, dst },
                ] + bg_tiles(
                    self.sprite.tex,
                    self.sprite.src,
                    physical_left + step,
                    step as int,
                    win_w as int,
                    win_h as int,
                ));
                assert(renderer.commands@ + bg_tiles(
                    self.sprite.tex,
                    self.sprite.src,
                    physical_left + step,
                    step as int,
                    win_w as int,
                    win_h as int,
                ) =~= base + full);
            }
            physical_left = physical_left + step;
        }
        proof {
            assert(bg_tiles(
                self.sprite.tex,
                self.sprite.src,
                physical_left as int,
                step as int,
                win_w as int,
                win_h as int,
            ) =~= Seq::<DrawCommand>::empty());
        }
    }
}

/// A group of three parallax layers (back to front, increasing velocity)
/// that can be passed from view to view.
#[derive(Clone, Copy, Debug)]
pub struct Backgrounds {
    pub back: Background,
    pub middle: Background,
    pub front: Background,
}

impl Backgrounds {
    pub open spec fn wf(self) -> bool {
        &&& self.back.wf()
        &&& self.middle.wf()
        &&& self.front.wf()
    }

    /// The canonical backdrop: three layers over the given star-field
    /// sprites, at rest, scrolling 20, 40 and 80 pixels per second from back
    /// to front.
    pub fn new(back: Sprite, middle: Sprite, front: Sprite) -> (r: Backgrounds)
        requires
            back.wf(),
            middle.wf(),
            front.wf(),
            1 <= back.src.w <= SCREEN_BOUND,
            1 <= back.src.h <= SCREEN_BOUND,
            1 <= middle.src.w <= SCREEN_BOUND,
            1 <= middle.src.h <= SCREEN_BOUND,
            1 <= front.src.w <= SCREEN_BOUND,
            1 <= front.src.h <= SCREEN_BOUND,
        ensures
            r == (Backgrounds {
                back: Background { pos: 0, vel: 20_000, sprite: back },
                middle: Background { pos: 0, vel: 40_000, sprite: middle },
                front: Background { pos: 0, vel: 80_000, sprite: front },
            }),
            r.wf(),
    {
        Backgrounds {
            back: Background { pos: 0, vel: 20_000, sprite: back },
            middle: Background { pos: 0, vel: 40_000, sprite: middle },
            front: Background { pos: 0, vel: 80_000, sprite: front },
        }
    }
}

/// The sprites every view needs, decoded and rasterized by the platform
/// layer at startup (missing assets abort the program there, by design) and
/// passed from view to view alongside the backdrop.
#[derive(Clone, Copy, Debug)]
pub struct GameAssets {
    /// The ship's 3-by-3 directional sheet.
    pub ship_sheet: Sprite,
    /// The asteroid animation's 21-by-7 sheet.
    pub asteroid_sheet: Sprite,
    /// The three star-field layers, back to front.
    pub star_back: Sprite,
    pub star_middle: Sprite,
    pub star_front: Sprite,
    /// The menu labels, rasterized in their idle and hovered colours.
    pub menu_new_game_idle: Sprite,
    pub menu_new_game_hover: Sprite,
    pub menu_quit_idle: Sprite,
    pub menu_quit_hover: Sprite,
}

impl GameAssets {
    pub open spec fn wf(self) -> bool {
        &&& self.ship_sheet.wf()
        &&& self.ship_sheet.src.w >= 129_000
        &&& self.ship_sheet.src.h >= 117_000
        &&& self.asteroid_sheet.wf()
        &&& self.asteroid_sheet.src.w >= 2_016_000
        &&& self.asteroid_sheet.src.h >= 672_000
        &&& self.star_back.wf()
        &&& 1 <= self.star_back.src.w <= SCREEN_BOUND
        &&& 1 <= self.star_back.src.h <= SCREEN_BOUND
        &&& self.star_middle.wf()
        &&& 1 <= self.star_middle.src.w <= SCREEN_BOUND
        &&& 1 <= self.star_middle.src.h <= SCREEN_BOUND
        &&& self.star_front.wf()
        &&& 1 <= self.star_front.src.w <= SCREEN_BOUND
        &&& 1 <= self.star_front.src.h <= SCREEN_BOUND
        &&& self.menu_new_game_idle.wf()
        &&& self.menu_new_game_idle.src.w <= SCREEN_BOUND
        &&& self.menu_new_game_idle.src.h <= SCREEN_BOUND
        &&& self.menu_new_game_hover.wf()
        &&& self.menu_new_game_hover.src.w <= SCREEN_BOUND
        &&& self.menu_new_game_hover.src.h <= SCREEN_BOUND
        &&& self.menu_quit_idle.wf()
        &&& self.menu_quit_idle.src.w <= SCREEN_BOUND
        &&& self.menu_quit_idle.src.h <= SCREEN_BOUND
        &&& self.menu_quit_hover.wf()
        &&& self.menu_quit_hover.src.w <= SCREEN_BOUND
        &&& self.menu_quit_hover.src.h <= SCREEN_BOUND
    }
}

} // verus!
