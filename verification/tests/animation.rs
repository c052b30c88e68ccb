//! Sprites, sub-regions, and time-driven frame cycling.

use arcaders::phi::data::Rectangle;
use arcaders::phi::gfx::{AnimatedSprite, Sprite, Texture};

fn tex(id: u64, w: i64, h: i64) -> Texture {
    Texture { id, width: w, height: h }
}

fn frames(n: usize) -> Vec<Sprite> {
    let sheet = Sprite::new(tex(7, 1_000_000, 1_000));
    let mut v = Vec::new();
    for i in 0..n {
        let cell = Rectangle { x: (i as i64) * 1_000, y: 0, w: 1_000, h: 1_000 };
        v.push(sheet.region(cell).unwrap());
    }
    v
}

#[test]
fn whole_texture_sprite_and_size() {
    let s = Sprite::new(tex(1, 64_000, 32_000));
    assert_eq!(s.size(), (64_000, 32_000));
    assert_eq!(s.src, Rectangle { x: 0, y: 0, w: 64_000, h: 32_000 });
}

#[test]
fn region_translates_into_parent_space() {
    let sheet = Sprite::new(tex(1, 100_000, 100_000));
    let sub = sheet.region(Rectangle { x: 10_000, y: 20_000, w: 30_000, h: 30_000 }).unwrap();
    assert_eq!(sub.tex, 1);
    assert_eq!(sub.src, Rectangle { x: 10_000, y: 20_000, w: 30_000, h: 30_000 });
    let subsub = sub.region(Rectangle { x: 5_000, y: 5_000, w: 10_000, h: 10_000 }).unwrap();
    assert_eq!(subsub.src, Rectangle { x: 15_000, y: 25_000, w: 10_000, h: 10_000 });
}

#[test]
fn region_fails_outside_parent() {
    let sheet = Sprite::new(tex(1, 100_000, 100_000));
    assert!(sheet.region(Rectangle { x: 90_000, y: 0, w: 20_000, h: 10_000 }).is_none());
    assert!(sheet.region(Rectangle { x: -1, y: 0, w: 10_000, h: 10_000 }).is_none());
    let sub = sheet.region(Rectangle { x: 50_000, y: 50_000, w: 50_000, h: 50_000 }).unwrap();
    // In the sub-sprite's space the parent region ends at its own extents.
    assert!(sub.region(Rectangle { x: 40_000, y: 0, w: 20_000, h: 10_000 }).is_none());
}

#[test]
fn fps_sets_frame_delay() {
    // 10 frames per second (in millihertz) last a hundred milliseconds each.
    let a = AnimatedSprite::new_with_fps(frames(3), 10_000);
    assert_eq!(a.frame_delay, 100);
    assert_eq!(a.current_time, 0);
    assert_eq!(a.frame_count(), 3);
}

#[test]
fn whole_frame_steps_cycle_the_animation() {
    let mut a = AnimatedSprite::new(frames(3), 100);
    assert_eq!(a.current_frame(), 0);
    a.add_time(200);
    assert_eq!(a.current_frame(), 2);
    a.add_time(100);
    assert_eq!(a.current_frame(), 0);
    a.add_time(400);
    assert_eq!(a.current_frame(), 1);
}

#[test]
fn rewinding_past_zero_loops_to_last_frame() {
    let mut a = AnimatedSprite::new(frames(4), 100);
    a.add_time(-1);
    assert_eq!(a.current_frame(), 3);
    assert_eq!(a.current_time, 300);
}

#[test]
fn negative_steps_rewind_within_range() {
    let mut a = AnimatedSprite::new(frames(4), 100);
    a.add_time(350);
    assert_eq!(a.current_frame(), 3);
    a.add_time(-200);
    assert_eq!(a.current_frame(), 1);
}
