//! The three bullet motion laws and the cannon mounts.

use arcaders::phi::data::Rectangle;
use arcaders::phi::events::Events;
use arcaders::phi::gfx::Renderer;
use arcaders::phi::Phi;
use arcaders::views::game::{
    Bullet, CannonType, DivergentBullet, RectBullet, Ship, ShipFrame, SineBullet, BULLET_H,
    BULLET_W, SHIP_H, SHIP_W,
};

fn test_phi(w: i64, h: i64) -> Phi {
    Phi::new(Events::new(), Renderer::new(w, h))
}

fn straight(x: i64, y: i64) -> Bullet {
    Bullet::Rect(RectBullet { rect: Rectangle { x, y, w: BULLET_W, h: BULLET_H } })
}

#[test]
fn straight_bullet_travels_at_constant_speed() {
    let phi = test_phi(800_000, 600_000);
    // 240 pixels per second, one second: 240 pixels.
    let b = straight(0, 100_000).update(&phi, 1000).unwrap();
    match b {
        Bullet::Rect(rb) => assert_eq!(rb.rect.x, 240_000),
        _ => panic!("straight bullet changed law"),
    }
}

#[test]
fn straight_bullet_destroyed_exactly_past_the_right_edge() {
    // Spawned at x = 0 with a 8-pixel width on a 800-pixel screen: the
    // computed x first exceeds the width strictly after 3333 simulated
    // milliseconds.
    let phi = test_phi(800_000, 600_000);
    // 240 * 3333 = 799_920 <= 800_000: still alive.
    assert!(straight(0, 0).update(&phi, 1000).unwrap().update(&phi, 1000).is_some());
    let alive = straight(0, 0).update(&phi, 3333);
    assert!(alive.is_some());
    // One more millisecond pushes it past the edge.
    assert!(alive.unwrap().update(&phi, 1).is_none());
    // And a single jump beyond 3.3 seconds is destroyed at once.
    assert!(straight(0, 0).update(&phi, 3334).is_none());
}

#[test]
fn sine_bullet_starts_on_its_origin() {
    let b = SineBullet {
        pos_x: 10_000,
        origin_y: 50_000,
        amplitude: 10_000,
        angular_vel: 15_000,
        total_time: 0,
    };
    let r = Bullet::Sine(b).rect();
    assert_eq!(r, Rectangle { x: 10_000, y: 50_000, w: BULLET_W, h: BULLET_H });
}

#[test]
fn sine_bullet_offset_stays_within_amplitude() {
    let phi = test_phi(100_000_000, 600_000);
    let mut b = Bullet::Sine(SineBullet {
        pos_x: 0,
        origin_y: 300_000,
        amplitude: 10_000,
        angular_vel: 15_000,
        total_time: 0,
    });
    for _ in 0..50 {
        b = b.update(&phi, 37).unwrap();
        let r = b.rect();
        assert!(r.y >= 290_000 && r.y <= 310_000);
    }
}

#[test]
fn divergent_bullet_dips_then_rises() {
    // a(t/b)^3 - a(t/b)^2 is negative before t reaches b: with a positive
    // `a` the bullet first dips below its origin.
    let early = DivergentBullet {
        pos_x: 0,
        origin_y: 300_000,
        a: 100_000,
        b: 1_200,
        total_time: 600,
    };
    let r_early = Bullet::Divergent(early).rect();
    assert!(r_early.y < 300_000);
    // Far beyond b the cubic term dominates and the offset turns positive.
    let late = DivergentBullet { total_time: 3_600, ..early };
    let r_late = Bullet::Divergent(late).rect();
    assert!(r_late.y > 300_000);
}

#[test]
fn divergent_bullet_destroyed_at_any_edge() {
    let phi = test_phi(800_000, 600_000);
    // Heading far below the bottom edge: destroyed even though x is fine.
    let b = Bullet::Divergent(DivergentBullet {
        pos_x: 100_000,
        origin_y: 300_000,
        a: 100_000,
        b: 1_200,
        total_time: 3_000,
    });
    assert!(b.update(&phi, 1_000).is_none());
}

fn ship_at(x: i64, y: i64, cannon: CannonType) -> Ship {
    let sheet = arcaders::phi::gfx::Sprite::new(arcaders::phi::gfx::Texture {
        id: 1,
        width: 129_000,
        height: 117_000,
    });
    let mut sprites = Vec::new();
    for i in 0..9i64 {
        let cell = Rectangle {
            x: (i % 3) * SHIP_W,
            y: (i / 3) * SHIP_H,
            w: SHIP_W,
            h: SHIP_H,
        };
        sprites.push(sheet.region(cell).unwrap());
    }
    Ship {
        rect: Rectangle { x, y, w: SHIP_W, h: SHIP_H },
        sprites,
        current: ShipFrame::MidNorm,
        cannon,
    }
}

#[test]
fn plain_cannons_fire_two_straight_bullets() {
    let ship = ship_at(64_000, 64_000, CannonType::RectBullet);
    let bullets = ship.spawn_bullets();
    assert_eq!(bullets.len(), 2);
    match (&bullets[0], &bullets[1]) {
        (Bullet::Rect(a), Bullet::Rect(b)) => {
            assert_eq!(a.rect, Rectangle { x: 94_000, y: 70_000, w: BULLET_W, h: BULLET_H });
            assert_eq!(
                b.rect,
                Rectangle { x: 94_000, y: 64_000 + SHIP_H - 10_000, w: BULLET_W, h: BULLET_H }
            );
        },
        _ => panic!("plain cannons fired the wrong law"),
    }
}

#[test]
fn divergent_cannons_mirror_their_spread() {
    let ship = ship_at(64_000, 64_000, CannonType::DivergentBullet { a: 100_000, b: 1_200 });
    let bullets = ship.spawn_bullets();
    assert_eq!(bullets.len(), 2);
    match (&bullets[0], &bullets[1]) {
        (Bullet::Divergent(top), Bullet::Divergent(bottom)) => {
            assert_eq!(top.a, -100_000);
            assert_eq!(bottom.a, 100_000);
            assert_eq!(top.b, 1_200);
            assert_eq!(bottom.b, 1_200);
            assert_eq!(top.total_time, 0);
        },
        _ => panic!("divergent cannons fired the wrong law"),
    }
}

#[test]
fn sine_cannons_share_their_parameters() {
    let ship = ship_at(0, 0, CannonType::SineBullet { amplitude: 10_000, angular_vel: 15_000 });
    let bullets = ship.spawn_bullets();
    assert_eq!(bullets.len(), 2);
    match (&bullets[0], &bullets[1]) {
        (Bullet::Sine(a), Bullet::Sine(b)) => {
            assert_eq!(a.amplitude, 10_000);
            assert_eq!(b.amplitude, 10_000);
            assert_eq!(a.angular_vel, 15_000);
            assert_eq!(a.pos_x, 30_000);
            assert_eq!(a.origin_y, 6_000);
            assert_eq!(b.origin_y, SHIP_H - 10_000);
        },
        _ => panic!("sine cannons fired the wrong law"),
    }
}
