//! The gameplay view: the player's ship, its bullets with their three
//! motion laws, the respawning asteroid, and the parallax backdrop.

use vstd::prelude::*;
use crate::phi::data::{spec_div_trunc, div_trunc, Rectangle, COORD_BOUND, SCREEN_BOUND};
use crate::phi::{Phi, ViewAction};
use crate::views::shared::{Background, Backgrounds, GameAssets};
use crate::phi::gfx::{AnimatedSprite, Color, DrawCommand, Renderable, Sprite};

verus! {

/// Millipixels travelled by the player ship every millisecond when moving
/// (180 pixels per second).
pub const PLAYER_SPEED: i64 = 180;

/// The ship's extents, in millipixels.
pub const SHIP_W: i64 = 43_000;

pub const SHIP_H: i64 = 39_000;

/// Millipixels a bullet travels every millisecond (240 pixels per second).
pub const BULLET_SPEED: i64 = 240;

/// A bullet's extents, in millipixels.
pub const BULLET_W: i64 = 8_000;

pub const BULLET_H: i64 = 4_000;

/// Upper bound on the elapsed time handed to one update, in milliseconds.
pub const GAME_DT_BOUND: i64 = 1_000_000;

/// The rational sine approximation on a half turn, scaled by a thousand:
/// `16000·x·(π−x) / (5π² − 4·x·(π−x))` with all angles in milliradians.
pub open spec fn spec_sin_half(x: int) -> int {
    16000 * x * (3142 - x) / (5 * 3142 * 3142 - 4 * x * (3142 - x))
}

/// The engine's sine: per-mille of the sine of `angle` milliradians, by the
/// classical rational approximation on each half turn.
pub open spec fn spec_sin_milli(angle: int) -> int {
    let r = angle % 6284;
    if r < 3142 {
        spec_sin_half(r)
    } else {
        -spec_sin_half(r - 3142)
    }
}

/// The numerator and denominator of the half-turn approximation are bounded
/// so the quotient always lies in `[0, 1000]`.
proof fn lemma_sin_half_bounds(x: int)
    requires
        0 <= x < 3142,
    ensures
        0 <= spec_sin_half(x) <= 1000,
{
    let prod = x * (3142 - x);
    assert(0 <= x * (3142 - x) <= 2468041) by (nonlinear_arith)
        requires 0 <= x < 3142;
    assert(16000 * x * (3142 - x) == 16000 * prod) by (nonlinear_arith)
        requires prod == x * (3142 - x);
    assert(4 * x * (3142 - x) == 4 * prod) by (nonlinear_arith)
        requires prod == x * (3142 - x);
    assert(5 * 3142 * 3142 - 4 * prod >= 39488656);
    assert(16000 * prod >= 0);
    vstd::arithmetic::div_mod::lemma_div_pos_is_pos(16000 * prod, 5 * 3142 * 3142 - 4 * prod);
    assert(16000 * prod <= 1000 * (5 * 3142 * 3142 - 4 * prod)) by (nonlinear_arith)
        requires 0 <= prod <= 2468041;
    vstd::arithmetic::div_mod::lemma_div_multiples_vanish(
        1000,
        5 * 3142 * 3142 - 4 * prod,
    );
    vstd::arithmetic::div_mod::lemma_div_is_ordered(
        16000 * prod,
        1000 * (5 * 3142 * 3142 - 4 * prod),
        5 * 3142 * 3142 - 4 * prod,
    );
    assert((5 * 3142 * 3142 - 4 * prod) * 1000 / (5 * 3142 * 3142 - 4 * prod) == 1000);
    assert(1000 * (5 * 3142 * 3142 - 4 * prod) == (5 * 3142 * 3142 - 4 * prod) * 1000)
        by (nonlinear_arith);
}

/// The sine of any non-negative angle stays within one, in per-mille.
pub proof fn lemma_sin_milli_bounds(angle: int)
    requires
        0 <= angle,
    ensures
        -1000 <= spec_sin_milli(angle) <= 1000,
{
    let r = angle % 6284;
    vstd::arithmetic::div_mod::lemma_mod_division_less_than_divisor(angle, 6284);
    if r < 3142 {
        lemma_sin_half_bounds(r);
    } else {
        lemma_sin_half_bounds(r - 3142);
    }
}

/// Per-mille of the sine of `angle` milliradians.
fn sin_milli(angle: i64) -> (r: i64)
    requires
        0 <= angle,
    ensures
        r == spec_sin_milli(angle as int),
        -1000 <= r <= 1000,
{
    proof {
        lemma_sin_milli_bounds(angle as int);
        vstd::arithmetic::div_mod::lemma_mod_division_less_than_divisor(angle as int, 6284);
    }
    let r = ((angle as u64) % 6284) as i64;
    if r < 3142 {
        proof {
            assert(0 <= r as int * (3142 - r as int) <= 2468041) by (nonlinear_arith)
                requires 0 <= r < 3142;
            lemma_sin_half_bounds(r as int);
        }
        let prod = r * (3142 - r);
        proof {
            assert(16000 * (prod as int) == 16000 * (r as int) * (3142 - r as int))
                by (nonlinear_arith)
                requires prod == (r as int) * (3142 - r as int);
            assert(4 * (prod as int) == 4 * (r as int) * (3142 - r as int))
                by (nonlinear_arith)
                requires prod == (r as int) * (3142 - r as int);
        }
        ((16000 * (prod as u64)) / ((5 * 3142 * 3142 - 4 * prod) as u64)) as i64
    } else {
        let x = r - 3142;
        proof {
            assert(0 <= x as int * (3142 - x as int) <= 2468041) by (nonlinear_arith)
                requires 0 <= x < 3142;
            lemma_sin_half_bounds(x as int);
        }
        let prod = x * (3142 - x);
        proof {
            assert(16000 * (prod as int) == 16000 * (x as int) * (3142 - x as int))
                by (nonlinear_arith)
                requires prod == (x as int) * (3142 - x as int);
            assert(4 * (prod as int) == 4 * (x as int) * (3142 - x as int))
                by (nonlinear_arith)
                requires prod == (x as int) * (3142 - x as int);
        }
        0 - (((16000 * (prod as u64)) / ((5 * 3142 * 3142 - 4 * prod) as u64)) as i64)
    }
}

/// The player's current armament: one of three motion laws, with the
/// parameters the bullets of that law carry.
#[derive(Clone, Copy, PartialEq, Eq, Structural, Debug)]
pub enum CannonType {
    RectBullet,
    SineBullet { amplitude: i64, angular_vel: i64 },
    DivergentBullet { a: i64, b: i64 },
}

/// A bullet flying in a straight horizontal line.
#[derive(Clone, Copy, PartialEq, Eq, Structural, Debug)]
pub struct RectBullet {
    pub rect: Rectangle,
}

/// A bullet whose vertical offset from its origin follows a sine of the
/// time since it was fired. The bounding box is not stored: it is computed.
#[derive(Clone, Copy, PartialEq, Eq, Structural, Debug)]
pub struct SineBullet {
    pub pos_x: i64,
    pub origin_y: i64,
    /// Peak vertical offset, in millipixels.
    pub amplitude: i64,
    /// Angular velocity, in milliradians per second.
    pub angular_vel: i64,
    /// Milliseconds since the bullet was fired.
    pub total_time: i64,
}

/// A bullet which follows a vertical trajectory described by
/// `a * ((t / b)^3 - (t / b)^2)`.
#[derive(Clone, Copy, PartialEq, Eq, Structural, Debug)]
pub struct DivergentBullet {
    pub pos_x: i64,
    pub origin_y: i64,
    /// Influences the bullet's height, in millipixels.
    pub a: i64,
    /// Influences the bullet's width: the time scale, in milliseconds.
    pub b: i64,
    /// Milliseconds since the bullet was fired.
    pub total_time: i64,
}

/// A bullet of any of the three motion laws: a closed set dispatched by
/// pattern match.
#[derive(Clone, Copy, PartialEq, Eq, Structural, Debug)]
pub enum Bullet {
    Rect(RectBullet),
    Sine(SineBullet),
    Divergent(DivergentBullet),
}

impl RectBullet {
    pub open spec fn wf(self) -> bool {
        self.rect.wf()
    }

    /// Where the bullet is after `dt` more milliseconds, or nothing once its
    /// left edge passes the screen's right edge `w`.
    pub open spec fn spec_update(self, w: int, dt: int) -> Option<Bullet> {
        let moved = Rectangle { x: (self.rect.x + BULLET_SPEED * dt) as i64, ..self.rect };
        if moved.x > w {
            None::<Bullet>
        } else {
            Some(Bullet::Rect(RectBullet { rect: moved }))
        }
    }
}

impl SineBullet {
    pub open spec fn wf(self) -> bool {
        &&& -COORD_BOUND <= self.pos_x <= COORD_BOUND
        &&& -COORD_BOUND <= self.origin_y <= COORD_BOUND
        &&& 0 <= self.amplitude <= 1_000_000_000
        &&& 0 <= self.angular_vel <= 1_000_000
        &&& 0 <= self.total_time
        &&& BULLET_SPEED * self.total_time <= self.pos_x + 2 * COORD_BOUND
    }

    /// What the bounding-box computation needs: bounded parameters and a
    /// flight time within the range any bullet on a bounded playfield can
    /// reach (`wf` plus one more update step imply it).
    pub open spec fn rect_ready(self) -> bool {
        &&& 0 <= self.total_time <= 13_000_000_000
        &&& 0 <= self.amplitude <= 1_000_000_000
        &&& 0 <= self.angular_vel <= 1_000_000
        &&& -COORD_BOUND <= self.origin_y <= COORD_BOUND
    }

    /// The bullet's bounding box: its vertical offset from the origin is
    /// `amplitude · sin(angular_vel · total_time)`, in the engine's
    /// per-mille sine.
    pub open spec fn spec_rect(self) -> Rectangle {
        let phase = self.angular_vel as int * self.total_time as int / 1000;
        let dy = spec_div_trunc(self.amplitude * spec_sin_milli(phase), 1000);
        Rectangle {
            x: self.pos_x,
            y: (self.origin_y + dy) as i64,
            w: BULLET_W,
            h: BULLET_H,
        }
    }

    pub open spec fn spec_update(self, w: int, dt: int) -> Option<Bullet> {
        let moved = SineBullet {
            pos_x: (self.pos_x + BULLET_SPEED * dt) as i64,
            total_time: (self.total_time + dt) as i64,
            ..self
        };
        if moved.spec_rect().x > w {
            None::<Bullet>
        } else {
            Some(Bullet::Sine(moved))
        }
    }
}

impl DivergentBullet {
    pub open spec fn wf(self) -> bool {
        &&& -COORD_BOUND <= self.pos_x <= COORD_BOUND
        &&& -COORD_BOUND <= self.origin_y <= COORD_BOUND
        &&& -1_000_000_000 <= self.a <= 1_000_000_000
        &&& 1 <= self.b <= 1_000_000_000
        &&& 0 <= self.total_time
        &&& BULLET_SPEED * self.total_time <= self.pos_x + 2 * COORD_BOUND
    }

    /// What the bounding-box computation needs: bounded parameters and a
    /// flight time within the range any bullet on a bounded playfield can
    /// reach (`wf` plus one more update step imply it).
    pub open spec fn rect_ready(self) -> bool {
        &&& 0 <= self.total_time <= 13_000_000_000
        &&& -1_000_000_000 <= self.a <= 1_000_000_000
        &&& 1 <= self.b <= 1_000_000_000
        &&& -COORD_BOUND <= self.origin_y <= COORD_BOUND
    }

    /// The vertical offset `a · ((t/b)^3 - (t/b)^2)`, computed over the
    /// ratio `q = 1000·t/b` in per-mille — so the offset is
    /// `a·(q³ − 1000·q²) / 10⁹` — with the ratio capped and the offset
    /// clamped far outside any screen once the trajectory diverges.
    pub open spec fn spec_dy(self) -> int {
        let q0 = self.total_time as int * 1000 / self.b as int;
        let q = if q0 > 2_000_000 {
            2_000_000int
        } else {
            q0
        };
        let dy = spec_div_trunc(self.a * (q * q * q - 1000 * (q * q)), 1_000_000_000);
        if dy > COORD_BOUND {
            COORD_BOUND as int
        } else if dy < -COORD_BOUND {
            -(COORD_BOUND as int)
        } else {
            dy
        }
    }

    pub open spec fn spec_rect(self) -> Rectangle {
        Rectangle {
            x: self.pos_x,
            y: (self.origin_y + self.spec_dy()) as i64,
            w: BULLET_W,
            h: BULLET_H,
        }
    }

    /// Unlike the straight and sine bullets, a divergent bullet is destroyed
    /// as soon as it leaves the screen through any of the four edges.
    pub open spec fn spec_update(self, w: int, h: int, dt: int) -> Option<Bullet> {
        let moved = DivergentBullet {
            pos_x: (self.pos_x + BULLET_SPEED * dt) as i64,
            total_time: (self.total_time + dt) as i64,
            ..self
        };
        let r = moved.spec_rect();
        if r.x > w || r.x < 0 || r.y > h || r.y < 0 {
            None::<Bullet>
        } else {
            Some(Bullet::Divergent(moved))
        }
    }
}

impl Bullet {
    pub open spec fn wf(self) -> bool {
        match self {
            Bullet::Rect(b) => b.wf(),
            Bullet::Sine(b) => b.wf(),
            Bullet::Divergent(b) => b.wf(),
        }
    }

    /// The bullet's bounding box.
    pub open spec fn spec_rect(self) -> Rectangle {
        match self {
            Bullet::Rect(b) => b.rect,
            Bullet::Sine(b) => b.spec_rect(),
            Bullet::Divergent(b) => b.spec_rect(),
        }
    }

    /// The colour the bullet is drawn in.
    pub open spec fn spec_color(self) -> Color {
        match self {
            Bullet::Rect(_) => Color { r: 230, g: 230, b: 30 },
            Bullet::Sine(_) => Color { r: 30, g: 230, b: 30 },
            Bullet::Divergent(_) => Color { r: 230, g: 30, b: 30 },
        }
    }

    /// The bullet after `dt` milliseconds on a `w` by `h` screen, or
    /// nothing once its motion law destroys it.
    pub open spec fn spec_update(self, w: int, h: int, dt: int) -> Option<Bullet> {
        match self {
            Bullet::Rect(b) => b.spec_update(w, dt),
            Bullet::Sine(b) => b.spec_update(w, dt),
            Bullet::Divergent(b) => b.spec_update(w, h, dt),
        }
    }

    /// Advance the bullet by `dt` milliseconds: the bullet consumes itself
    /// and is either replaced by its advanced state or destroyed (nothing)
    /// once it leaves the visible area.
    pub fn update(self, phi: &Phi, dt: i64) -> (r: Option<Bullet>)
        requires
            self.wf(),
            phi.wf(),
            phi.renderer.out_w <= SCREEN_BOUND,
            phi.renderer.out_h <= SCREEN_BOUND,
            0 <= dt <= GAME_DT_BOUND,
        ensures
            r == self.spec_update(phi.renderer.out_w as int, phi.renderer.out_h as int, dt as int),
            r matches Some(b) ==> b.wf(),
    {
        let (w, h) = phi.output_size();
        match self {
            Bullet::Rect(b) => {
                let moved = Rectangle { x: b.rect.x + BULLET_SPEED * dt, ..b.rect };
                if moved.x > w {
                    None
                } else {
                    Some(Bullet::Rect(RectBullet { rect: moved }))
                }
            },
            Bullet::Sine(b) => {
                let moved = SineBullet {
                    pos_x: b.pos_x + BULLET_SPEED * dt,
                    total_time: b.total_time + dt,
                    ..b
                };
                if moved.rect_exec().x > w {
                    None
                } else {
                    Some(Bullet::Sine(moved))
                }
            },
            Bullet::Divergent(b) => {
                let moved = DivergentBullet {
                    pos_x: b.pos_x + BULLET_SPEED * dt,
                    total_time: b.total_time + dt,
                    ..b
                };
                let r = moved.rect_exec();
                if r.x > w || r.x < 0 || r.y > h || r.y < 0 {
                    None
                } else {
                    Some(Bullet::Divergent(moved))
                }
            },
        }
    }

    /// Draw the bullet as a filled rectangle in its colour.
    pub fn render(&self, phi: &mut Phi)
        requires
            self.wf(),
        ensures
            final(phi).events == old(phi).events,
            final(phi).cached_fonts == old(phi).cached_fonts,
            final(phi).renderer == (crate::phi::gfx::Renderer {
                commands: final(phi).renderer.commands,
                draw_color: self.spec_color(),
                ..old(phi).renderer
            }),
            final(phi).renderer.commands@ =~= old(phi).renderer.commands@.push(
                crate::phi::gfx::DrawCommand::FillRect(self.spec_color(), self.spec_rect()),
            ),
    {
        let color = match self {
            Bullet::Rect(_) => Color { r: 230, g: 230, b: 30 },
            Bullet::Sine(_) => Color { r: 30, g: 230, b: 30 },
            Bullet::Divergent(_) => Color { r: 230, g: 30, b: 30 },
        };
        phi.renderer.set_draw_color(color);
        let rect = self.rect();
        phi.renderer.fill_rect(rect);
    }

    /// The bullet's bounding box.
    pub fn rect(&self) -> (r: Rectangle)
        requires
            self.wf(),
        ensures
            r == self.spec_rect(),
    {
        match self {
            Bullet::Rect(b) => b.rect,
            Bullet::Sine(b) => b.rect_exec(),
            Bullet::Divergent(b) => b.rect_exec(),
        }
    }
}

impl SineBullet {
    /// The bounding box, computed from the motion law.
    fn rect_exec(&self) -> (r: Rectangle)
        requires
            self.rect_ready(),
        ensures
            r == self.spec_rect(),
    {
        proof {
            assert(0 <= self.angular_vel as int * (self.total_time as int)
                <= 20_000_000_000_000_000int) by (nonlinear_arith)
                requires
                    0 <= self.angular_vel <= 1_000_000
                        && 0 <= self.total_time <= 13_000_000_000int;
        }
        let phase = ((self.angular_vel as u64) * (self.total_time as u64) / 1000) as i64;
        let s = sin_milli(phase);
        proof {
            assert(-1_000_000_000_000int <= self.amplitude as int * (s as int)
                <= 1_000_000_000_000int) by (nonlinear_arith)
                requires 0 <= self.amplitude <= 1_000_000_000 && -1000 <= s <= 1000;
        }
        let dy = div_trunc(self.amplitude * s, 1000);
        Rectangle { x: self.pos_x, y: self.origin_y + dy, w: BULLET_W, h: BULLET_H }
    }
}

impl DivergentBullet {
    /// The bounding box, computed from the motion law.
    fn rect_exec(&self) -> (r: Rectangle)
        requires
            self.rect_ready(),
        ensures
            r == self.spec_rect(),
    {
        let q0u = (self.total_time as u64) * 1000 / (self.b as u64);
        let q: i64 = if q0u > 2_000_000 {
            2_000_000
        } else {
            q0u as i64
        };
        let dy0 = scaled_cubic(self.a, q);
        let dy = if dy0 > COORD_BOUND {
            COORD_BOUND
        } else if dy0 < 0 - COORD_BOUND {
            0 - COORD_BOUND
        } else {
            dy0
        };
        Rectangle { x: self.pos_x, y: self.origin_y + dy, w: BULLET_W, h: BULLET_H }
    }
}

/// `a · (q³ − 1000·q²) / 10⁹`, rounded towards zero: the divergent motion
/// law's vertical offset before clamping.
fn scaled_cubic(a: i64, q: i64) -> (r: i64)
    requires
        -1_000_000_000 <= a <= 1_000_000_000,
        0 <= q <= 2_000_000,
    ensures
        r == spec_div_trunc(a as int * (q * q * q - 1000 * (q * q)), 1_000_000_000),
{
    proof {
        assert(0 <= q as int * (q as int) <= 4_000_000_000_000int) by (nonlinear_arith)
            requires 0 <= q <= 2_000_000;
    }
    let qq: u64 = (q as u64) * (q as u64);
    proof {
        assert(0 <= qq as int * (q as int) <= 8_000_000_000_000_000_000int) by (nonlinear_arith)
            requires 0 <= q <= 2_000_000 && 0 <= qq <= 4_000_000_000_000int;
        assert(qq as int * (q as int) == (q as int) * (q as int) * (q as int)) by (nonlinear_arith)
            requires qq == (q as int) * (q as int);
    }
    let cube: u64 = qq * (q as u64);
    let sq1000: u64 = 1000 * qq;
    let (mag_c, c_neg) = if cube >= sq1000 {
        (cube - sq1000, false)
    } else {
        (sq1000 - cube, true)
    };
    let a_mag: u64 = if a >= 0 {
        a as u64
    } else {
        (0 - a) as u64
    };
    proof {
        assert(a_mag as int * (mag_c as int) <= 9_000_000_000_000_000_000_000_000_000int)
            by (nonlinear_arith)
            requires 0 <= a_mag <= 1_000_000_000 && 0 <= mag_c <= 8_000_000_000_000_000_000int;
    }
    let wide: u128 = (a_mag as u128) * (mag_c as u128);
    proof {
        assert(a_mag as int * (mag_c as int) <= 1_000_000_000int * (mag_c as int))
            by (nonlinear_arith)
            requires 0 <= a_mag <= 1_000_000_000 && 0 <= mag_c;
        vstd::arithmetic::div_mod::lemma_div_is_ordered(
            a_mag as int * (mag_c as int),
            1_000_000_000int * (mag_c as int),
            1_000_000_000,
        );
        vstd::arithmetic::div_mod::lemma_div_multiples_vanish(mag_c as int, 1_000_000_000);
        vstd::arithmetic::div_mod::lemma_div_pos_is_pos(
            a_mag as int * (mag_c as int),
            1_000_000_000,
        );
    }
    let mag: u64 = (wide / 1_000_000_000) as u64;
    let neg = (a < 0) != c_neg;
    let c_int: Ghost<int> = Ghost(
        (q as int) * (q as int) * (q as int) - 1000 * ((q as int) * (q as int)),
    );
    proof {
        if c_neg {
            assert(c_int@ == -(mag_c as int));
        } else {
            assert(c_int@ == mag_c as int);
        }
        let prod = a as int * c_int@;
        if a >= 0 && !c_neg {
            assert(prod == a_mag as int * (mag_c as int)) by (nonlinear_arith)
                requires a == a_mag as int && c_int@ == mag_c as int && prod == a as int * c_int@;
        } else if a >= 0 && c_neg {
            assert(prod == -(a_mag as int * (mag_c as int))) by (nonlinear_arith)
                requires a == a_mag as int && c_int@ == -(mag_c as int) && prod == a as int
                    * c_int@;
        } else if a < 0 && !c_neg {
            assert(prod == -(a_mag as int * (mag_c as int))) by (nonlinear_arith)
                requires a == -(a_mag as int) && c_int@ == mag_c as int && prod == a as int
                    * c_int@;
        } else {
            assert(prod == a_mag as int * (mag_c as int)) by (nonlinear_arith)
                requires a == -(a_mag as int) && c_int@ == -(mag_c as int) && prod == a as int
                    * c_int@;
        }
    }
    if neg {
        0 - (mag as i64)
    } else {
        mag as i64
    }
}

/// The nine directional frames of the ship's 3-by-3 sprite sheet, keyed by
/// vertical direction (up, mid, down) and horizontal thrust (slow, normal,
/// fast).
#[derive(Clone, Copy, PartialEq, Eq, Structural, Debug)]
pub enum ShipFrame {
    UpNorm,
    UpFast,
    UpSlow,
    MidNorm,
    MidFast,
    MidSlow,
    DownNorm,
    DownFast,
    DownSlow,
}

/// The sprite-sheet cell of each directional frame, row by row.
pub open spec fn spec_frame_index(f: ShipFrame) -> int {
    match f {
        ShipFrame::UpNorm => 0,
        ShipFrame::UpFast => 1,
        ShipFrame::UpSlow => 2,
        ShipFrame::MidNorm => 3,
        ShipFrame::MidFast => 4,
        ShipFrame::MidSlow => 5,
        ShipFrame::DownNorm => 6,
        ShipFrame::DownFast => 7,
        ShipFrame::DownSlow => 8,
    }
}

/// The sprite-sheet cell of each directional frame.
pub fn frame_index(f: ShipFrame) -> (r: usize)
    ensures
        r == spec_frame_index(f),
        r < 9,
{
    match f {
        ShipFrame::UpNorm => 0,
        ShipFrame::UpFast => 1,
        ShipFrame::UpSlow => 2,
        ShipFrame::MidNorm => 3,
        ShipFrame::MidFast => 4,
        ShipFrame::MidSlow => 5,
        ShipFrame::DownNorm => 6,
        ShipFrame::DownFast => 7,
        ShipFrame::DownSlow => 8,
    }
}

/// The frame selected from the signs of the per-frame movement deltas:
/// nine mutually exclusive cases, with a stationary ship resolving to the
/// mid/normal frame.
pub open spec fn spec_ship_frame(dx: int, dy: int) -> ShipFrame {
    if dx == 0 && dy < 0 {
        ShipFrame::UpNorm
    } else if dx > 0 && dy < 0 {
        ShipFrame::UpFast
    } else if dx < 0 && dy < 0 {
        ShipFrame::UpSlow
    } else if dx == 0 && dy == 0 {
        ShipFrame::MidNorm
    } else if dx > 0 && dy == 0 {
        ShipFrame::MidFast
    } else if dx < 0 && dy == 0 {
        ShipFrame::MidSlow
    } else if dx == 0 && dy > 0 {
        ShipFrame::DownNorm
    } else if dx > 0 && dy > 0 {
        ShipFrame::DownFast
    } else {
        ShipFrame::DownSlow
    }
}

/// The parameters a cannon may carry.
pub open spec fn cannon_wf(c: CannonType) -> bool {
    match c {
        CannonType::RectBullet => true,
        CannonType::SineBullet { amplitude, angular_vel } => {
            &&& 0 <= amplitude <= 1_000_000_000
            &&& 0 <= angular_vel <= 1_000_000
        },
        CannonType::DivergentBullet { a, b } => {
            &&& -1_000_000_000 <= a <= 1_000_000_000
            &&& 1 <= b <= 1_000_000_000
        },
    }
}

/// The player's ship: its bounding box, the nine directional frames, the
/// frame currently shown, and the mounted cannon.
pub struct Ship {
    pub rect: Rectangle,
    pub sprites: Vec<Sprite>,
    pub current: ShipFrame,
    pub cannon: CannonType,
}

impl Ship {
    pub open spec fn wf(self) -> bool {
        &&& self.rect.wf()
        &&& self.rect.w == SHIP_W
        &&& self.rect.h == SHIP_H
        &&& 0 <= self.rect.x <= SCREEN_BOUND
        &&& 0 <= self.rect.y <= SCREEN_BOUND
        &&& self.sprites@.len() == 9
        &&& cannon_wf(self.cannon)
    }

    /// The two bullets one shot fires: one per cannon mount, mirrored at the
    /// top and bottom of the ship, parameterized identically except that the
    /// divergent law mirrors its `a` sign to produce a symmetric spread.
    pub open spec fn spec_spawn_bullets(self) -> Seq<Bullet> {
        let cannons_x = (self.rect.x + 30_000) as i64;
        let cannon1_y = (self.rect.y + 6_000) as i64;
        let cannon2_y = (self.rect.y + SHIP_H - 10_000) as i64;
        let mirrored = match self.cannon {
            CannonType::DivergentBullet { a, .. } => (-a) as i64,
            _ => 0i64,
        };
        match self.cannon {
            CannonType::RectBullet => seq![
                Bullet::Rect(RectBullet {
                    rect: Rectangle { x: cannons_x, y: cannon1_y, w: BULLET_W, h: BULLET_H },
                }),
                Bullet::Rect(RectBullet {
                    rect: Rectangle { x: cannons_x, y: cannon2_y, w: BULLET_W, h: BULLET_H },
                }),
            ],
            CannonType::SineBullet { amplitude, angular_vel } => seq![
                Bullet::Sine(SineBullet {
                    pos_x: cannons_x,
                    origin_y: cannon1_y,
                    amplitude,
                    angular_vel,
                    total_time: 0,
                }),
                Bullet::Sine(SineBullet {
                    pos_x: cannons_x,
                    origin_y: cannon2_y,
                    amplitude,
                    angular_vel,
                    total_time: 0,
                }),
            ],
            CannonType::DivergentBullet { a, b } => seq![
                Bullet::Divergent(DivergentBullet {
                    pos_x: cannons_x,
                    origin_y: cannon1_y,
                    a: mirrored,
                    b,
                    total_time: 0,
                }),
                Bullet::Divergent(DivergentBullet {
                    pos_x: cannons_x,
                    origin_y: cannon2_y,
                    a,
                    b,
                    total_time: 0,
                }),
            ],
        }
    }

    /// Create one bullet at the tip of each cannon.
    pub fn spawn_bullets(&self) -> (r: Vec<Bullet>)
        requires
            self.wf(),
        ensures
            r@ =~= self.spec_spawn_bullets(),
            forall|i: int| 0 <= i < r@.len() ==> (#[trigger] r@[i]).wf(),
    {
        let cannons_x = self.rect.x + 30_000;
        let cannon1_y = self.rect.y + 6_000;
        let cannon2_y = self.rect.y + SHIP_H - 10_000;
        match self.cannon {
            CannonType::RectBullet => vec![
                Bullet::Rect(RectBullet {
                    rect: Rectangle { x: cannons_x, y: cannon1_y, w: BULLET_W, h: BULLET_H },
                }),
                Bullet::Rect(RectBullet {
                    rect: Rectangle { x: cannons_x, y: cannon2_y, w: BULLET_W, h: BULLET_H },
                }),
            ],
            CannonType::SineBullet { amplitude, angular_vel } => vec![
                Bullet::Sine(SineBullet {
                    pos_x: cannons_x,
                    origin_y: cannon1_y,
                    amplitude,
                    angular_vel,
                    total_time: 0,
                }),
                Bullet::Sine(SineBullet {
                    pos_x: cannons_x,
                    origin_y: cannon2_y,
                    amplitude,
                    angular_vel,
                    total_time: 0,
                }),
            ],
            CannonType::DivergentBullet { a, b } => {
                let neg_a = 0 - a;
                vec![
                Bullet::Divergent(DivergentBullet {
                    pos_x: cannons_x,
                    origin_y: cannon1_y,
                    a: neg_a,
                    b,
                    total_time: 0,
                }),
                Bullet::Divergent(DivergentBullet {
                    pos_x: cannons_x,
                    origin_y: cannon2_y,
                    a,
                    b,
                    total_time: 0,
                }),
            ]
            },
        }
    }
}

/// The asteroid sprite sheet's grid: 21 cells wide, 7 high, with the last 4
/// cells of the final row missing.
pub const ASTEROIDS_WIDE: usize = 21;

pub const ASTEROIDS_HIGH: usize = 7;

pub const ASTEROIDS_TOTAL: usize = 21 * 7 - 4;

/// An asteroid cell's side, in millipixels.
pub const ASTEROID_SIDE: i64 = 96_000;

/// Relies on rand::random: a uniformly sampled machine integer drawn from
/// the thread-local generator; nothing is promised of its value. rand
/// documents that the call panics if the operating system's entropy source
/// fails at first seeding or at a periodic reseed — an environmental,
/// input-independent failure that no precondition can exclude.
#[verifier::external_body]
fn random_u64() -> u64 {
    rand::random()
}

/// One animated asteroid travelling right to left at a randomized constant
/// velocity; on exiting the left edge it respawns at the right edge with a
/// new randomized height, velocity and animation rate — an unbounded cycle.
pub struct Asteroid {
    pub sprite: AnimatedSprite,
    pub rect: Rectangle,
    /// Leftward velocity, in millipixels per second.
    pub vel: i64,
}

impl Asteroid {
    pub open spec fn wf(self) -> bool {
        &&& self.sprite.wf()
        &&& self.rect.wf()
        &&& self.rect.w == ASTEROID_SIDE
        &&& self.rect.h == ASTEROID_SIDE
        &&& 0 <= self.vel <= 1_000_000
    }

    /// The per-frame duration a respawn's randomized animation rate gives:
    /// some rate between 10 and 30 frames per second.
    pub open spec fn spec_rate_randomized(delay: i64) -> bool {
        exists|f: int| 10_000 <= f < 30_000 && delay as int == #[trigger] (1_000_000int / f)
    }

    /// The sprite-sheet cell of frame `i`, in the sheet's own coordinates.
    pub open spec fn spec_frame_cell(sheet: Sprite, i: int) -> Sprite {
        Sprite {
            tex: sheet.tex,
            src: Rectangle {
                x: (sheet.src.x + (i % 21) * ASTEROID_SIDE) as i64,
                y: (sheet.src.y + (i / 21) * ASTEROID_SIDE) as i64,
                w: ASTEROID_SIDE,
                h: ASTEROID_SIDE,
            },
        }
    }

    /// Slice the asteroid animation out of its sprite sheet: the grid's
    /// cells row by row, omitting the missing cells at the end, at `fps`
    /// millihertz.
    pub fn get_sprite(sheet: &Sprite, fps: i64) -> (r: AnimatedSprite)
        requires
            sheet.wf(),
            1 <= fps <= 1_000_000,
            sheet.src.w >= 21 * ASTEROID_SIDE,
            sheet.src.h >= 7 * ASTEROID_SIDE,
        ensures
            r.sprites@.len() == ASTEROIDS_TOTAL,
            r.frame_delay == 1_000_000int / fps as int,
            r.current_time == 0,
            r.wf(),
            forall|i: int| 0 <= i < ASTEROIDS_TOTAL ==> r.sprites@[i]
                == #[trigger] Self::spec_frame_cell(*sheet, i),
    {
        let mut cells: Vec<Sprite> = Vec::new();
        let mut i: usize = 0;
        while i < ASTEROIDS_TOTAL
            invariant
                i <= ASTEROIDS_TOTAL,
                cells@.len() == i,
                sheet.wf(),
                sheet.src.w >= 21 * ASTEROID_SIDE,
                sheet.src.h >= 7 * ASTEROID_SIDE,
                forall|j: int| 0 <= j < i ==> cells@[j] == #[trigger] Self::spec_frame_cell(
                    *sheet,
                    j,
                ),
            decreases ASTEROIDS_TOTAL - i,
        {
            let xth = i % 21;
            let yth = i / 21;
            proof {
                assert(xth < 21);
                assert(yth <= 6) by {
                    assert(i <= 142);
                    assert(i as int / 21 <= 142int / 21) by {
                        vstd::arithmetic::div_mod::lemma_div_is_ordered(i as int, 142, 21);
                    }
                }
            }
            let cell = Rectangle {
                w: ASTEROID_SIDE,
                h: ASTEROID_SIDE,
                x: (xth as i64) * ASTEROID_SIDE,
                y: (yth as i64) * ASTEROID_SIDE,
            };
            let region = sheet.region(cell);
            let frame = match region {
                Some(f) => f,
                None => {
                    proof {
                        assert(sheet.src.spec_contains(sheet.spec_translated(cell)));
                    }
                    vstd::pervasive::unreached()
                },
            };
            cells.push(frame);
            i = i + 1;
        }
        AnimatedSprite::new_with_fps(cells, fps)
    }

    /// A fresh asteroid sliced from its sheet, immediately respawned at the
    /// right edge of the screen with randomized height, velocity and
    /// animation rate.
    pub fn new(phi: &mut Phi, sheet: &Sprite) -> (r: Asteroid)
        requires
            old(phi).wf(),
            old(phi).renderer.out_w <= SCREEN_BOUND,
            ASTEROID_SIDE <= old(phi).renderer.out_h <= SCREEN_BOUND,
            sheet.wf(),
            sheet.src.w >= 21 * ASTEROID_SIDE,
            sheet.src.h >= 7 * ASTEROID_SIDE,
        ensures
            *final(phi) == *old(phi),
            r.wf(),
            r.rect.x == old(phi).renderer.out_w,
            0 <= r.rect.y <= old(phi).renderer.out_h - ASTEROID_SIDE,
            50_000 <= r.vel < 150_000,
            Self::spec_rate_randomized(r.sprite.frame_delay),
            r.sprite.current_time == 0,
            r.sprite.sprites@.len() == ASTEROIDS_TOTAL,
            forall|i: int| 0 <= i < ASTEROIDS_TOTAL ==> r.sprite.sprites@[i]
                == #[trigger] Self::spec_frame_cell(*sheet, i),
    {
        let mut asteroid = Asteroid {
            sprite: Self::get_sprite(sheet, 1_000),
            rect: Rectangle { w: ASTEROID_SIDE, h: ASTEROID_SIDE, x: 0, y: 0 },
            vel: 0,
        };
        asteroid.reset(phi);
        asteroid
    }

    /// Respawn at the right edge: a randomized animation rate in 10 to 30
    /// frames per second, a randomized vertical position fully on screen,
    /// and a randomized velocity in 50 to 150 pixels per second.
    fn reset(&mut self, phi: &Phi)
        requires
            old(self).sprite.wf(),
            phi.wf(),
            phi.renderer.out_w <= SCREEN_BOUND,
            ASTEROID_SIDE <= phi.renderer.out_h <= SCREEN_BOUND,
        ensures
            final(self).sprite.sprites == old(self).sprite.sprites,
            final(self).sprite.current_time == old(self).sprite.current_time,
            Self::spec_rate_randomized(final(self).sprite.frame_delay),
            final(self).rect.w == ASTEROID_SIDE,
            final(self).rect.h == ASTEROID_SIDE,
            final(self).rect.x == phi.renderer.out_w,
            0 <= final(self).rect.y <= phi.renderer.out_h - ASTEROID_SIDE,
            50_000 <= final(self).vel < 150_000,
            final(self).wf(),
    {
        let (w, h) = phi.output_size();

        // Animation rate in [10, 30) frames per second.
        let r1 = random_u64();
        let fps: i64 = 10_000 + ((r1 % 20_000) as i64);
        proof {
            assert(1 <= 1_000_000int / (fps as int) <= 1_000_000) by (nonlinear_arith)
                requires 1 <= fps <= 1_000_000;
        }
        self.sprite.set_fps(fps);

        // A vertical position with the whole asteroid on screen.
        let r2 = random_u64();
        let span = h - ASTEROID_SIDE;
        let y: i64 = if span == 0 {
            0
        } else {
            (r2 % (span as u64)) as i64
        };
        self.rect = Rectangle { w: ASTEROID_SIDE, h: ASTEROID_SIDE, x: w, y };

        // Velocity in [50, 150) pixels per second.
        let r3 = random_u64();
        self.vel = 50_000 + ((r3 % 100_000) as i64);
        proof {
            assert(self.sprite.frame_delay == 1_000_000int / (fps as int));
        }
    }

    /// Travel left by `vel · dt`; once the asteroid has fully left the
    /// screen through the left edge, respawn it at the right edge.
    pub fn update(&mut self, phi: &Phi, dt: i64)
        requires
            old(self).wf(),
            phi.wf(),
            phi.renderer.out_w <= SCREEN_BOUND,
            ASTEROID_SIDE <= phi.renderer.out_h <= SCREEN_BOUND,
            0 <= dt <= GAME_DT_BOUND,
            old(self).sprite.current_time + dt <= crate::phi::gfx::TIME_BOUND,
        ensures
            final(self).wf(),
            final(self).sprite.sprites == old(self).sprite.sprites,
            final(self).sprite.current_time == old(self).sprite.spec_add_time(dt).current_time,
            ({
                let moved = old(self).rect.x - old(self).vel * dt / 1000;
                if moved >= -ASTEROID_SIDE {
                    &&& final(self).rect == (Rectangle { x: moved as i64, ..old(self).rect })
                    &&& final(self).vel == old(self).vel
                    &&& final(self).sprite.frame_delay == old(self).sprite.frame_delay
                } else {
                    &&& final(self).rect.x == phi.renderer.out_w
                    &&& final(self).rect.w == ASTEROID_SIDE
                    &&& final(self).rect.h == ASTEROID_SIDE
                    &&& 0 <= final(self).rect.y <= phi.renderer.out_h - ASTEROID_SIDE
                    &&& 50_000 <= final(self).vel < 150_000
                    &&& Self::spec_rate_randomized(final(self).sprite.frame_delay)
                }
            }),
    {
        let vel_now = self.vel;
        proof {
            assert(0 <= vel_now as int * (dt as int) <= 1_000_000_000_000int)
                by (nonlinear_arith)
                requires 0 <= vel_now <= 1_000_000 && 0 <= dt <= 1_000_000;
        }
        let delta = ((vel_now as u64) * (dt as u64) / 1000) as i64;
        self.rect.x = self.rect.x - delta;
        self.sprite.add_time(dt);

        if self.rect.x < 0 - ASTEROID_SIDE {
            self.reset(phi);
        }
    }

    /// Draw the current animation frame at the asteroid's position.
    pub fn render(&mut self, phi: &mut Phi)
        requires
            old(self).wf(),
        ensures
            *final(self) == *old(self),
            final(phi).events == old(phi).events,
            final(phi).cached_fonts == old(phi).cached_fonts,
            final(phi).renderer == (crate::phi::gfx::Renderer {
                commands: final(phi).renderer.commands,
                ..old(phi).renderer
            }),
            final(phi).renderer.commands@ =~= old(phi).renderer.commands@.push(
                old(self).sprite.render_spec(old(self).rect),
            ),
    {
        let rect = self.rect;
        self.sprite.render(&mut phi.renderer, rect);
    }
}

/// The gameplay view: the player, the live bullets (rebuilt each tick by
/// filtering the survivors in order), the asteroid, the backdrop, and the
/// shared asset bundle.
pub struct ShipView {
    pub player: Ship,
    pub bullets: Vec<Bullet>,
    pub asteroid: Asteroid,
    pub backgrounds: Backgrounds,
    pub assets: GameAssets,
}

impl ShipView {
    pub open spec fn wf(self) -> bool {
        &&& self.player.wf()
        &&& forall|i: int| 0 <= i < self.bullets@.len() ==> (#[trigger] self.bullets@[i]).wf()
        &&& self.asteroid.wf()
        &&& self.backgrounds.wf()
        &&& self.assets.wf()
    }

    /// The ship sheet's cell of directional frame `i`, row by row.
    pub open spec fn spec_ship_cell(sheet: Sprite, i: int) -> Sprite {
        Sprite {
            tex: sheet.tex,
            src: Rectangle {
                x: (sheet.src.x + (i % 3) * SHIP_W) as i64,
                y: (sheet.src.y + (i / 3) * SHIP_H) as i64,
                w: SHIP_W,
                h: SHIP_H,
            },
        }
    }

    /// What a freshly constructed gameplay view looks like, apart from the
    /// randomized asteroid: the ship at its start position showing the
    /// mid/normal frame with plain cannons, no bullets in flight, the given
    /// backdrop and assets.
    pub open spec fn is_fresh(self, backgrounds: Backgrounds, assets: GameAssets) -> bool {
        &&& self.player.rect == (Rectangle { x: 64_000, y: 64_000, w: SHIP_W, h: SHIP_H })
        &&& self.player.current == ShipFrame::MidNorm
        &&& self.player.cannon == CannonType::RectBullet
        &&& self.player.sprites@.len() == 9
        &&& (forall|i: int| 0 <= i < 9 ==> self.player.sprites@[i]
            == #[trigger] Self::spec_ship_cell(assets.ship_sheet, i))
        &&& self.bullets@.len() == 0
        &&& self.backgrounds == backgrounds
        &&& self.assets == assets
    }

    /// A gameplay view over a fresh canonical backdrop.
    pub fn new(phi: &mut Phi, assets: GameAssets) -> (r: ShipView)
        requires
            old(phi).wf(),
            old(phi).renderer.out_w <= SCREEN_BOUND,
            ASTEROID_SIDE <= old(phi).renderer.out_h <= SCREEN_BOUND,
            assets.wf(),
        ensures
            *final(phi) == *old(phi),
            r.wf(),
            r.is_fresh(
                Backgrounds {
                    back: crate::views::shared::Background {
                        pos: 0,
                        vel: 20_000,
                        sprite: assets.star_back,
                    },
                    middle: crate::views::shared::Background {
                        pos: 0,
                        vel: 40_000,
                        sprite: assets.star_middle,
                    },
                    front: crate::views::shared::Background {
                        pos: 0,
                        vel: 80_000,
                        sprite: assets.star_front,
                    },
                },
                assets,
            ),
            r.asteroid.rect.x == old(phi).renderer.out_w,
            0 <= r.asteroid.rect.y <= old(phi).renderer.out_h - ASTEROID_SIDE,
            50_000 <= r.asteroid.vel < 150_000,
            Asteroid::spec_rate_randomized(r.asteroid.sprite.frame_delay),
            r.asteroid.sprite.current_time == 0,
    {
        let bg = Backgrounds::new(assets.star_back, assets.star_middle, assets.star_front);
        ShipView::new_with_backgrounds(phi, bg, assets)
    }

    /// A gameplay view that adopts an existing backdrop: the ship's nine
    /// directional frames are sliced out of the sheet, the bullet list
    /// starts empty, and the asteroid spawns at the right edge.
    pub fn new_with_backgrounds(phi: &mut Phi, backgrounds: Backgrounds, assets: GameAssets)
        -> (r: ShipView)
        requires
            old(phi).wf(),
            old(phi).renderer.out_w <= SCREEN_BOUND,
            ASTEROID_SIDE <= old(phi).renderer.out_h <= SCREEN_BOUND,
            backgrounds.wf(),
            assets.wf(),
        ensures
            *final(phi) == *old(phi),
            r.wf(),
            r.is_fresh(backgrounds, assets),
            r.asteroid.rect.x == old(phi).renderer.out_w,
            0 <= r.asteroid.rect.y <= old(phi).renderer.out_h - ASTEROID_SIDE,
            50_000 <= r.asteroid.vel < 150_000,
            Asteroid::spec_rate_randomized(r.asteroid.sprite.frame_delay),
            r.asteroid.sprite.current_time == 0,
    {
        let sheet = assets.ship_sheet;
        let mut sprites: Vec<Sprite> = Vec::new();
        let mut i: usize = 0;
        while i < 9
            invariant
                i <= 9,
                sprites@.len() == i,
                sheet == assets.ship_sheet,
                sheet.wf(),
                sheet.src.w >= 129_000,
                sheet.src.h >= 117_000,
                forall|j: int| 0 <= j < i ==> sprites@[j] == #[trigger] Self::spec_ship_cell(
                    sheet,
                    j,
                ),
            decreases 9 - i,
        {
            let xth = i % 3;
            let yth = i / 3;
            proof {
                assert(xth < 3);
                assert(yth <= 2) by {
                    assert(i as int / 3 <= 8int / 3) by {
                        vstd::arithmetic::div_mod::lemma_div_is_ordered(i as int, 8, 3);
                    }
                }
            }
            let cell = Rectangle {
                w: SHIP_W,
                h: SHIP_H,
                x: (xth as i64) * SHIP_W,
                y: (yth as i64) * SHIP_H,
            };
            let frame = match sheet.region(cell) {
                Some(f) => f,
                None => {
                    proof {
                        assert(sheet.src.spec_contains(sheet.spec_translated(cell)));
                    }
                    vstd::pervasive::unreached()
                },
            };
            sprites.push(frame);
            i = i + 1;
        }

        ShipView {
            player: Ship {
                rect: Rectangle { x: 64_000, y: 64_000, w: SHIP_W, h: SHIP_H },
                sprites,
                current: ShipFrame::MidNorm,
                cannon: CannonType::RectBullet,
            },
            bullets: Vec::new(),
            asteroid: Asteroid::new(phi, &assets.asteroid_sheet),
            backgrounds,
            assets,
        }
    }
}

/// The cannon mounted after this frame's edges: the number keys switch the
/// motion law, later keys overriding earlier ones within one frame.
pub open spec fn spec_cannon_after(
    now: crate::phi::events::ImmediateEvents,
    c: CannonType,
) -> CannonType {
    let c1 = if now.key_1 == Some(true) {
        CannonType::RectBullet
    } else {
        c
    };
    let c2 = if now.key_2 == Some(true) {
        CannonType::SineBullet { amplitude: 10_000, angular_vel: 15_000 }
    } else {
        c1
    };
    if now.key_3 == Some(true) {
        CannonType::DivergentBullet { a: 100_000, b: 1_200 }
    } else {
        c2
    }
}

/// How far the ship moves on an engaged axis this frame: orthogonal key
/// pairs cancel, and diagonal movement is scaled by the per-mille inverse
/// square root of two so diagonal speed equals axial speed.
pub open spec fn spec_moved_amount(ev: crate::phi::events::Events, elapsed: int) -> int {
    let diagonal = (ev.key_up != ev.key_down) && (ev.key_left != ev.key_right);
    if diagonal {
        PLAYER_SPEED * elapsed * 707_107 / 1_000_000
    } else {
        PLAYER_SPEED * elapsed
    }
}

/// This frame's horizontal movement delta, from the held left/right keys.
pub open spec fn spec_dx(ev: crate::phi::events::Events, elapsed: int) -> int {
    if ev.key_left == ev.key_right {
        0int
    } else if ev.key_left {
        -spec_moved_amount(ev, elapsed)
    } else {
        spec_moved_amount(ev, elapsed)
    }
}

/// This frame's vertical movement delta, from the held up/down keys.
pub open spec fn spec_dy(ev: crate::phi::events::Events, elapsed: int) -> int {
    if ev.key_up == ev.key_down {
        0int
    } else if ev.key_up {
        -spec_moved_amount(ev, elapsed)
    } else {
        spec_moved_amount(ev, elapsed)
    }
}

/// The ship's movement bound: seven tenths of the playfield width and its
/// full height.
pub open spec fn spec_move_region(w: int, h: int) -> Rectangle {
    Rectangle { x: 0, y: 0, w: (w * 7 / 10) as i64, h: h as i64 }
}

/// Where the ship's box ends up: translated by this frame's deltas, then
/// clamped into the movement bound.
pub open spec fn spec_player_rect_after(
    rect: Rectangle,
    ev: crate::phi::events::Events,
    elapsed: int,
    w: int,
    h: int,
) -> Rectangle {
    let moved = Rectangle {
        x: (rect.x + spec_dx(ev, elapsed)) as i64,
        y: (rect.y + spec_dy(ev, elapsed)) as i64,
        ..rect
    };
    moved.spec_move_inside(spec_move_region(w, h))
}

/// The survivors of advancing every bullet by `dt` on a `w` by `h` screen,
/// in their original relative order.
pub open spec fn spec_update_bullets(bs: Seq<Bullet>, w: int, h: int, dt: int) -> Seq<Bullet>
    decreases bs.len(),
{
    if bs.len() == 0 {
        Seq::<Bullet>::empty()
    } else {
        let prefix = spec_update_bullets(bs.drop_last(), w, h, dt);
        match bs.last().spec_update(w, h, dt) {
            Some(b) => prefix.push(b),
            None => prefix,
        }
    }
}

/// The fill commands that draw a list of bullets in order.
pub open spec fn spec_bullets_commands(bs: Seq<Bullet>) -> Seq<DrawCommand> {
    bs.map_values(|b: Bullet| DrawCommand::FillRect(b.spec_color(), b.spec_rect()))
}

impl ShipView {
    /// When the gameplay view can accept a frame: well-formed state, output
    /// within screen bounds and large enough for the clamped ship and the
    /// asteroid, bounded elapsed time, backdrop layers that scale to at
    /// least one millipixel per tile, and an asteroid animation clock with
    /// room for this frame.
    pub open spec fn render_req(self, phi: Phi, elapsed: i64) -> bool {
        &&& self.wf()
        &&& phi.wf()
        &&& phi.renderer.out_w <= SCREEN_BOUND
        &&& ASTEROID_SIDE <= phi.renderer.out_h <= SCREEN_BOUND
        &&& 0 <= elapsed <= GAME_DT_BOUND
        &&& SHIP_W <= phi.renderer.out_w * 7 / 10
        &&& SHIP_H <= phi.renderer.out_h
        &&& self.backgrounds.back.sprite.src.w * phi.renderer.out_h
            >= self.backgrounds.back.sprite.src.h
        &&& self.backgrounds.middle.sprite.src.w * phi.renderer.out_h
            >= self.backgrounds.middle.sprite.src.h
        &&& self.backgrounds.front.sprite.src.w * phi.renderer.out_h
            >= self.backgrounds.front.sprite.src.h
        &&& self.asteroid.sprite.current_time + elapsed <= crate::phi::gfx::TIME_BOUND
    }

    /// What one gameplay frame does.
    pub open spec fn render_rel(
        self,
        phi: Phi,
        elapsed: i64,
        self2: ShipView,
        phi2: Phi,
        r: ViewAction,
    ) -> bool {
        let now = phi.events.now;
        let ev = phi.events;
        let w = phi.renderer.out_w as int;
        let h = phi.renderer.out_h as int;
        if now.quit {
            &&& r is Quit
            &&& self2 == self
            &&& phi2 == phi
        } else if now.key_escape == Some(true) {
            &&& (r matches ViewAction::ChangeView(v) && (*v matches crate::views::GameView::Menu(
                m,
            ) && {
                &&& m.wf()
                &&& m.is_fresh(self.backgrounds, self.assets)
            }))
            &&& self2 == self
            &&& phi2 == phi
        } else {
            let cannon2 = spec_cannon_after(now, self.player.cannon);
            let rect2 = spec_player_rect_after(self.player.rect, ev, elapsed as int, w, h);
            let frame2 = spec_ship_frame(spec_dx(ev, elapsed as int), spec_dy(ev, elapsed as int));
            let updated = spec_update_bullets(self.bullets@, w, h, elapsed as int);
            let asteroid_moved_x = self.asteroid.rect.x - self.asteroid.vel * elapsed / 1000;
            let ship_sprite = self.player.sprites@[spec_frame_index(frame2)];
            &&& r is Continue
            &&& self2.player.cannon == cannon2
            &&& self2.player.rect == rect2
            &&& self2.player.current == frame2
            &&& self2.player.sprites == self.player.sprites
            &&& self2.bullets@ =~= if now.key_space == Some(true) {
                updated + self2.player.spec_spawn_bullets()
            } else {
                updated
            }
            &&& self2.asteroid.sprite.sprites == self.asteroid.sprite.sprites
            &&& self2.asteroid.sprite.current_time == self.asteroid.sprite.spec_add_time(
                elapsed,
            ).current_time
            &&& (asteroid_moved_x >= -ASTEROID_SIDE ==> {
                &&& self2.asteroid.rect == (Rectangle {
                    x: asteroid_moved_x as i64,
                    ..self.asteroid.rect
                })
                &&& self2.asteroid.vel == self.asteroid.vel
                &&& self2.asteroid.sprite.frame_delay == self.asteroid.sprite.frame_delay
            })
            &&& (asteroid_moved_x < -ASTEROID_SIDE ==> {
                &&& self2.asteroid.rect.x == phi.renderer.out_w
                &&& self2.asteroid.rect.w == ASTEROID_SIDE
                &&& self2.asteroid.rect.h == ASTEROID_SIDE
                &&& 0 <= self2.asteroid.rect.y <= phi.renderer.out_h - ASTEROID_SIDE
                &&& 50_000 <= self2.asteroid.vel < 150_000
                &&& Asteroid::spec_rate_randomized(self2.asteroid.sprite.frame_delay)
            })
            &&& self2.backgrounds.back == (Background {
                pos: self.backgrounds.back.spec_scroll_pos(elapsed) as i64,
                ..self.backgrounds.back
            })
            &&& self2.backgrounds.middle == (Background {
                pos: self.backgrounds.middle.spec_scroll_pos(elapsed) as i64,
                ..self.backgrounds.middle
            })
            &&& self2.backgrounds.front == (Background {
                pos: self.backgrounds.front.spec_scroll_pos(elapsed) as i64,
                ..self.backgrounds.front
            })
            &&& self2.assets == self.assets
            &&& phi2.events == phi.events
            &&& phi2.cached_fonts == phi.cached_fonts
            &&& phi2.renderer.out_w == phi.renderer.out_w
            &&& phi2.renderer.out_h == phi.renderer.out_h
            &&& phi2.renderer.draw_color == if self2.bullets@.len() > 0 {
                self2.bullets@.last().spec_color()
            } else {
                Color { r: 0, g: 0, b: 0 }
            }
            &&& phi2.renderer.commands@ =~= phi.renderer.commands@ + seq![
                DrawCommand::Clear(Color { r: 0, g: 0, b: 0 }),
            ] + self2.backgrounds.back.spec_render_commands(w, h)
                + self2.backgrounds.middle.spec_render_commands(w, h) + seq![
                DrawCommand::CopyRegion { tex: ship_sprite.tex, src: ship_sprite.src, dst: rect2 },
            ] + spec_bullets_commands(self2.bullets@) + seq![
                self2.asteroid.sprite.render_spec(self2.asteroid.rect),
            ] + self2.backgrounds.front.spec_render_commands(w, h)
        }
    }
}

impl ShipView {
    /// One gameplay frame: react to this frame's edges (quit, back to the
    /// menu, cannon switching), move and clamp the ship, pick its
    /// directional frame, advance the surviving bullets and the asteroid,
    /// fire on demand, and draw the whole scene back to front.
    #[verifier::rlimit(100)]
    #[verifier::spinoff_prover]
    pub fn render(&mut self, phi: &mut Phi, elapsed: i64) -> (r: ViewAction)
        requires
            old(self).render_req(*old(phi), elapsed),
        ensures
            old(self).render_rel(*old(phi), elapsed, *final(self), *final(phi), r),
            final(self).wf(),
    {
        if phi.events.now.quit {
            return ViewAction::Quit;
        }
        if let Some(true) = phi.events.now.key_escape {
            let bg = self.backgrounds;
            let menu = crate::views::main_menu::MainMenuView::new_with_backgrounds(
                bg,
                self.assets,
            );
            return ViewAction::ChangeView(Box::new(crate::views::GameView::Menu(menu)));
        }

        // Change the player's cannons.
        if let Some(true) = phi.events.now.key_1 {
            self.player.cannon = CannonType::RectBullet;
        }
        if let Some(true) = phi.events.now.key_2 {
            self.player.cannon = CannonType::SineBullet { amplitude: 10_000, angular_vel: 15_000 };
        }
        if let Some(true) = phi.events.now.key_3 {
            self.player.cannon = CannonType::DivergentBullet { a: 100_000, b: 1_200 };
        }

        // Move the player's ship: opposite keys cancel, diagonals are
        // scaled so diagonal speed equals axial speed.
        let diagonal = (phi.events.key_up != phi.events.key_down) && (phi.events.key_left
            != phi.events.key_right);
        let base = PLAYER_SPEED * elapsed;
        let moved = if diagonal {
            (((base as u64) * 707_107) / 1_000_000) as i64
        } else {
            base
        };
        let dx: i64 = match (phi.events.key_left, phi.events.key_right) {
            (true, false) => 0 - moved,
            (false, true) => moved,
            _ => 0,
        };
        let dy: i64 = match (phi.events.key_up, phi.events.key_down) {
            (true, false) => 0 - moved,
            (false, true) => moved,
            _ => 0,
        };

        let (win_w, win_h) = phi.output_size();
        // The movement bound: seven tenths of the playfield width, full
        // height.
        let moveable_region = Rectangle {
            x: 0,
            y: 0,
            w: (((win_w as u64) * 7) / 10) as i64,
            h: win_h,
        };
        self.player.rect.x = self.player.rect.x + dx;
        self.player.rect.y = self.player.rect.y + dy;
        proof {
            assert(dx as int == spec_dx(old(phi).events, elapsed as int));
            assert(dy as int == spec_dy(old(phi).events, elapsed as int));
            assert(moveable_region == spec_move_region(win_w as int, win_h as int));
        }
        self.player.rect = match self.player.rect.move_inside(moveable_region) {
            Some(rect) => rect,
            None => {
                vstd::pervasive::unreached()
            },
        };

        // Select the appropriate frame of the ship to show.
        self.player.current = if dx == 0 && dy < 0 {
            ShipFrame::UpNorm
        } else if dx > 0 && dy < 0 {
            ShipFrame::UpFast
        } else if dx < 0 && dy < 0 {
            ShipFrame::UpSlow
        } else if dx == 0 && dy == 0 {
            ShipFrame::MidNorm
        } else if dx > 0 && dy == 0 {
            ShipFrame::MidFast
        } else if dx < 0 && dy == 0 {
            ShipFrame::MidSlow
        } else if dx == 0 && dy > 0 {
            ShipFrame::DownNorm
        } else if dx > 0 && dy > 0 {
            ShipFrame::DownFast
        } else {
            ShipFrame::DownSlow
        };

        // Update the bullets: collect the survivors, in order.
        let ghost bs0 = self.bullets@;
        let n = self.bullets.len();
        let mut survivors: Vec<Bullet> = Vec::new();
        let mut i: usize = 0;
        while i < n
            invariant
                n == bs0.len(),
                self.bullets@ == bs0,
                i <= n,
                forall|j: int| 0 <= j < n ==> (#[trigger] bs0[j]).wf(),
                phi.wf(),
                phi.renderer.out_w == win_w,
                phi.renderer.out_h == win_h,
                win_w <= SCREEN_BOUND,
                win_h <= SCREEN_BOUND,
                0 <= elapsed <= GAME_DT_BOUND,
                survivors@ =~= spec_update_bullets(
                    bs0.take(i as int),
                    win_w as int,
                    win_h as int,
                    elapsed as int,
                ),
                forall|j: int| 0 <= j < survivors@.len() ==> (#[trigger] survivors@[j]).wf(),
            decreases n - i,
        {
            let b = self.bullets[i];
            proof {
                assert(bs0.take(i + 1).drop_last() =~= bs0.take(i as int));
                assert(bs0.take(i + 1).last() == bs0[i as int]);
            }
            match b.update(phi, elapsed) {
                Some(nb) => {
                    survivors.push(nb);
                },
                None => {},
            }
            i = i + 1;
        }
        proof {
            assert(bs0.take(n as int) =~= bs0);
        }
        self.bullets = survivors;

        // Update the asteroid.
        self.asteroid.update(phi, elapsed);

        // Allow the player to shoot after the bullets are updated, so that
        // the new bullets appear at the tips of the cannons.
        if let Some(true) = phi.events.now.key_space {
            let mut fresh = self.player.spawn_bullets();
            self.bullets.append(&mut fresh);
        }

        // Clear the screen.
        let ghost c0 = phi.renderer.commands@;
        phi.renderer.set_draw_color(Color { r: 0, g: 0, b: 0 });
        phi.renderer.clear();
        proof {
            assert(phi.renderer.commands@ =~= c0 + seq![
                DrawCommand::Clear(Color { r: 0, g: 0, b: 0 }),
            ]);
        }

        // Render the backgrounds.
        self.backgrounds.back.render(&mut phi.renderer, elapsed);
        let ghost c2 = phi.renderer.commands@;
        self.backgrounds.middle.render(&mut phi.renderer, elapsed);
        let ghost c3 = phi.renderer.commands@;

        // Render the ship.
        let idx = frame_index(self.player.current);
        let ship_sprite = self.player.sprites[idx];
        let player_rect = self.player.rect;
        Renderable::render(&ship_sprite, &mut phi.renderer, player_rect);
        let ghost c4 = phi.renderer.commands@;
        proof {
            assert(c4 =~= c3 + seq![
                DrawCommand::CopyRegion {
                    tex: ship_sprite.tex,
                    src: ship_sprite.src,
                    dst: player_rect,
                },
            ]);
        }

        // Render the bullets.
        let ghost bs2 = self.bullets@;
        let ghost r0 = phi.renderer;
        let m = self.bullets.len();
        let mut k: usize = 0;
        while k < m
            invariant
                m == bs2.len(),
                self.bullets@ == bs2,
                k <= m,
                forall|j: int| 0 <= j < m ==> (#[trigger] bs2[j]).wf(),
                phi.events == old(phi).events,
                phi.cached_fonts == old(phi).cached_fonts,
                phi.renderer.out_w == r0.out_w,
                phi.renderer.out_h == r0.out_h,
                phi.renderer.commands@ =~= c4 + spec_bullets_commands(bs2.take(k as int)),
                k == 0 ==> phi.renderer.draw_color == r0.draw_color,
                k > 0 ==> phi.renderer.draw_color == bs2[k - 1].spec_color(),
            decreases m - k,
        {
            let b = self.bullets[k];
            b.render(phi);
            proof {
                assert(spec_bullets_commands(bs2.take(k + 1)) =~= spec_bullets_commands(
                    bs2.take(k as int),
                ).push(DrawCommand::FillRect(bs2[k as int].spec_color(), bs2[k as int].spec_rect())));
            }
            k = k + 1;
        }
        proof {
            assert(bs2.take(m as int) =~= bs2);
        }

        // Render the asteroid.
        let ghost c5 = phi.renderer.commands@;
        self.asteroid.render(phi);
        proof {
            assert(phi.renderer.commands@ =~= c5 + seq![
                self.asteroid.sprite.render_spec(self.asteroid.rect),
            ]);
        }

        // Render the foreground.
        self.backgrounds.front.render(&mut phi.renderer, elapsed);

        proof {
            let s0 = *old(self);
            let p0 = *old(phi);
            let wv = p0.renderer.out_w as int;
            let hv = p0.renderer.out_h as int;
            let full_bullets = spec_bullets_commands(bs2);
            assert(phi.renderer.commands@ =~= c0 + seq![
                DrawCommand::Clear(Color { r: 0, g: 0, b: 0 }),
            ] + self.backgrounds.back.spec_render_commands(wv, hv)
                + self.backgrounds.middle.spec_render_commands(wv, hv) + seq![
                DrawCommand::CopyRegion {
                    tex: ship_sprite.tex,
                    src: ship_sprite.src,
                    dst: player_rect,
                },
            ] + full_bullets + seq![self.asteroid.sprite.render_spec(self.asteroid.rect)]
                + self.backgrounds.front.spec_render_commands(wv, hv));
        }

        ViewAction::Continue
    }
}

} // verus!
