//! The shared engine layer: geometry, draw-command surface, input snapshots,
//! the frame context, and the view/game-loop protocol.

pub mod data;
pub mod events;
pub mod gfx;

use vstd::prelude::*;
use vstd::arithmetic::div_mod::{lemma_div_is_ordered, lemma_div_multiples_vanish_fancy};
use crate::phi::events::Events;
use crate::phi::gfx::Renderer;

verus! {

/// A font cache key: a font resource identifier (the platform layer maps
/// font file paths to these) and a point size.
#[derive(Clone, Copy, PartialEq, Eq, Structural, Debug)]
pub struct FontTag {
    pub path_id: u64,
    pub size: i32,
}

/// One cached font: its key and the handle of the loaded font resource.
#[derive(Clone, Copy, PartialEq, Eq, Structural, Debug)]
pub struct FontEntry {
    pub tag: FontTag,
    pub handle: u64,
}

/// Bundles the engine's shared state in a single structure which can be
/// passed easily between functions: the input snapshot, the rendering
/// surface, and the lazily populated font cache.
pub struct Phi {
    pub events: Events,
    pub renderer: Renderer,
    pub cached_fonts: Vec<FontEntry>,
}

impl Phi {
    /// Whether the cache holds an entry for `tag`.
    pub open spec fn font_cache_has(self, tag: FontTag) -> bool {
        exists|i: int| 0 <= i < self.cached_fonts@.len() && #[trigger] self.cached_fonts@[i].tag
            == tag
    }

    /// At most one cache entry per `(font, size)` pair — so each distinct
    /// pair is loaded at most once for the lifetime of the context.
    pub open spec fn font_cache_unique(self) -> bool {
        forall|i: int, j: int|
            0 <= i < j < self.cached_fonts@.len() ==> (#[trigger] self.cached_fonts@[i]).tag != (
            #[trigger] self.cached_fonts@[j]).tag
    }

    pub open spec fn wf(self) -> bool {
        &&& self.renderer.wf()
        &&& self.font_cache_unique()
    }

    /// A fresh context around the given input state and surface, with an
    /// empty font cache.
    pub fn new(events: Events, renderer: Renderer) -> (r: Phi)
        requires
            renderer.wf(),
        ensures
            r.events == events,
            r.renderer == renderer,
            r.cached_fonts@.len() == 0,
            r.wf(),
    {
        Phi { events, renderer, cached_fonts: Vec::new() }
    }

    /// The current logical output size, in millipixels.
    pub fn output_size(&self) -> (r: (i64, i64))
        ensures
            r == (self.renderer.out_w, self.renderer.out_h),
    {
        self.renderer.output_size()
    }

    /// Look `tag` up in the font cache: the cached handle if the font was
    /// loaded before, and nothing on a miss.
    pub fn font_cached(&self, tag: FontTag) -> (r: Option<u64>)
        ensures
            r is Some <==> self.font_cache_has(tag),
            r matches Some(h) ==> exists|i: int|
                0 <= i < self.cached_fonts@.len() && #[trigger] self.cached_fonts@[i] == (
                FontEntry { tag, handle: h }),
    {
        let n = self.cached_fonts.len();
        let mut i: usize = 0;
        while i < n
            invariant
                n == self.cached_fonts@.len(),
                i <= n,
                forall|j: int| 0 <= j < i ==> (#[trigger] self.cached_fonts@[j]).tag != tag,
            decreases n - i,
        {
            let entry = self.cached_fonts[i];
            if entry.tag.path_id == tag.path_id && entry.tag.size == tag.size {
                return Some(entry.handle);
            }
            i = i + 1;
        }
        None
    }

    /// Record a freshly loaded font under `tag`. The caller looks the tag up
    /// first; keeping misses-only insertion is what makes the cache load
    /// each `(font, size)` pair at most once.
    pub fn cache_font(&mut self, tag: FontTag, handle: u64)
        requires
            !old(self).font_cache_has(tag),
            old(self).font_cache_unique(),
        ensures
            final(self).cached_fonts@ =~= old(self).cached_fonts@.push(
                FontEntry { tag, handle },
            ),
            final(self).events == old(self).events,
            final(self).renderer == old(self).renderer,
            final(self).font_cache_unique(),
            final(self).font_cache_has(tag),
    {
        self.cached_fonts.push(FontEntry { tag, handle });
        proof {
            assert(self.cached_fonts@[self.cached_fonts@.len() - 1].tag == tag);
        }
    }
}

/// The fixed tick interval the loop targets between accepted frames, in
/// milliseconds (a 60 Hz cadence).
pub const TICK_INTERVAL_MS: u64 = 1000 / 60;

/// What the loop does with the current platform tick: sleep off the rest of
/// the interval without advancing any state, or accept a frame.
#[derive(Clone, Copy, PartialEq, Eq, Structural, Debug)]
pub enum TimerDecision {
    /// Too soon since the last accepted frame: sleep this many milliseconds
    /// and re-examine the clock, without re-polling input or simulating.
    Sleep(u64),
    /// Accept a frame that advances the simulation by `elapsed` milliseconds.
    /// `fps_report` carries the diagnostic frames-per-second count once per
    /// elapsed second and does not affect behaviour.
    Run { elapsed: u64, fps_report: Option<u16> },
}

/// Frame pacing for the fixed-step loop: remembers the tick of the last
/// accepted frame and counts frames for the once-per-second diagnostic
/// report.
pub struct FrameTimer {
    /// Platform tick (milliseconds) of the last accepted frame.
    pub before: u64,
    /// Platform tick of the last diagnostic report.
    pub last_second: u64,
    /// Frames accepted since the last report.
    pub fps: u16,
}

impl FrameTimer {
    /// The frame counter can never outrun the 60 Hz cadence by more than one
    /// frame per tick interval, so it stays far below its type's limit.
    pub open spec fn wf(self) -> bool {
        &&& self.last_second <= self.before
        &&& self.before - self.last_second <= 1001
        &&& self.fps as int <= (self.before - self.last_second) / (TICK_INTERVAL_MS as int)
    }

    /// A timer started at platform tick `now`.
    pub fn new(now: u64) -> (r: FrameTimer)
        ensures
            r == (FrameTimer { before: now, last_second: now, fps: 0 }),
            r.wf(),
    {
        FrameTimer { before: now, last_second: now, fps: 0 }
    }

    /// Decide what to do at platform tick `now`: if less than the tick
    /// interval has passed since the last accepted frame, sleep off the
    /// remainder and change nothing; otherwise accept a frame, hand back the
    /// elapsed wall time, and count it towards the once-per-second report.
    pub fn tick(&mut self, now: u64) -> (r: TimerDecision)
        requires
            old(self).wf(),
            old(self).before <= now,
        ensures
            final(self).wf(),
            now - old(self).before < TICK_INTERVAL_MS ==> r == TimerDecision::Sleep(
                (TICK_INTERVAL_MS - (now - old(self).before)) as u64,
            ) && *final(self) == *old(self),
            now - old(self).before >= TICK_INTERVAL_MS ==> {
                &&& r == (TimerDecision::Run {
                    elapsed: (now - old(self).before) as u64,
                    fps_report: if now - old(self).last_second > 1000 {
                        Some((old(self).fps + 1) as u16)
                    } else {
                        None::<u16>
                    },
                })
                &&& final(self).before == now
                &&& (now - old(self).last_second > 1000 ==> final(self).fps == 0
                    && final(self).last_second == now)
                &&& (now - old(self).last_second <= 1000 ==> final(self).fps == old(self).fps + 1
                    && final(self).last_second == old(self).last_second)
            },
    {
        let dt = now - self.before;
        if dt < TICK_INTERVAL_MS {
            return TimerDecision::Sleep(TICK_INTERVAL_MS - dt);
        }
        proof {
            Self::lemma_fps_increment_in_cadence(
                self.before as int,
                self.last_second as int,
                now as int,
                self.fps as int,
            );
        }
        self.before = now;
        let fps_now = self.fps + 1;
        self.fps = fps_now;
        if now - self.last_second > 1000 {
            self.last_second = now;
            self.fps = 0;
            TimerDecision::Run { elapsed: dt, fps_report: Some(fps_now) }
        } else {
            TimerDecision::Run { elapsed: dt, fps_report: None }
        }
    }

    /// One more frame after at least one tick interval keeps the frame
    /// counter within the cadence bound.
    proof fn lemma_fps_increment_in_cadence(before: int, last_second: int, now: int, fps: int)
        requires
            last_second <= before,
            before - last_second <= 1001,
            fps <= (before - last_second) / (TICK_INTERVAL_MS as int),
            now - before >= TICK_INTERVAL_MS,
        ensures
            fps + 1 <= (now - last_second) / (TICK_INTERVAL_MS as int),
            fps + 1 <= 1001int / (TICK_INTERVAL_MS as int) + 1,
    {
        let iv = TICK_INTERVAL_MS as int;
        let a = before - last_second;
        let b = now - last_second;
        assert((a + iv) / iv == a / iv + 1) by {
            lemma_div_multiples_vanish_fancy(a / iv, a % iv, iv);
            assert(a == iv * (a / iv) + a % iv) by {
                vstd::arithmetic::div_mod::lemma_fundamental_div_mod(a, iv);
            }
            assert(iv * (a / iv + 1) + a % iv == a + iv) by {
                vstd::arithmetic::mul::lemma_mul_is_distributive_add(iv, a / iv, 1);
            }
            lemma_div_multiples_vanish_fancy(a / iv + 1, a % iv, iv);
        }
        lemma_div_is_ordered(a + iv, b, iv);
        if fps + 1 > 1001int / iv + 1 {
            lemma_div_is_ordered(a, 1001, iv);
        }
    }
}

/// A ViewAction is the directive the currently executed view hands back to
/// the game loop each frame: keep going, quit, or replace the active view.
pub enum ViewAction {
    Continue,
    Quit,
    ChangeView(Box<crate::views::GameView>),
}

/// The view lifecycle: a polymorphic unit of game state owned exclusively
/// by the loop while active, addressed only through this capability set.
pub trait ViewLifecycle: Sized {
    /// When the view can accept a frame in the given context.
    spec fn view_req(&self, context: &Phi, elapsed: i64) -> bool;

    /// How the view and context after one frame relate to the state before,
    /// and which directive comes back.
    spec fn view_rel(
        &self,
        context: &Phi,
        elapsed: i64,
        view2: &Self,
        context2: &Phi,
        r: &ViewAction,
    ) -> bool;

    /// Called when self becomes the main, rendered view.
    fn resume(&mut self, context: &mut Phi)
        ensures
            *final(self) == *old(self),
            *final(context) == *old(context),
    {
    }

    /// Called when self stops being the main, rendered view.
    fn pause(&mut self, context: &mut Phi)
        ensures
            *final(self) == *old(self),
            *final(context) == *old(context),
    {
    }

    /// Called every frame to take care of both the logic and the rendering
    /// of the view; elapsed time is in milliseconds.
    fn render(&mut self, context: &mut Phi, elapsed: i64) -> (r: ViewAction)
        requires
            old(self).view_req(old(context), elapsed),
        ensures
            old(self).view_rel(old(context), elapsed, final(self), final(context), &r),
    ;
}

} // verus!
