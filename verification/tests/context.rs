//! The shared context: output size, the font cache, the frame timer, and
//! the parallax backdrop.

use arcaders::phi::data::Rectangle;
use arcaders::phi::events::Events;
use arcaders::phi::gfx::{CopySprite, DrawCommand, Renderer, Sprite, Texture};
use arcaders::phi::{FontTag, FrameTimer, Phi, TimerDecision};
use arcaders::views::shared::{Background, Backgrounds};

fn sprite(id: u64, w: i64, h: i64) -> Sprite {
    Sprite::new(Texture { id, width: w, height: h })
}

#[test]
fn output_size_reports_the_surface() {
    let phi = Phi::new(Events::new(), Renderer::new(800_000, 600_000));
    assert_eq!(phi.output_size(), (800_000, 600_000));
}

#[test]
fn font_cache_loads_each_pair_once() {
    let mut phi = Phi::new(Events::new(), Renderer::new(800_000, 600_000));
    let tag = FontTag { path_id: 1, size: 32 };
    assert_eq!(phi.font_cached(tag), None);
    phi.cache_font(tag, 77);
    assert_eq!(phi.font_cached(tag), Some(77));
    // Another size of the same font is a distinct pair.
    let other = FontTag { path_id: 1, size: 48 };
    assert_eq!(phi.font_cached(other), None);
    phi.cache_font(other, 78);
    assert_eq!(phi.font_cached(tag), Some(77));
    assert_eq!(phi.font_cached(other), Some(78));
    assert_eq!(phi.cached_fonts.len(), 2);
}

#[test]
fn timer_sleeps_off_the_interval() {
    let mut timer = FrameTimer::new(0);
    assert_eq!(timer.tick(10), TimerDecision::Sleep(6));
    // Sleeping did not advance any state.
    assert_eq!(timer.before, 0);
    assert_eq!(timer.tick(16), TimerDecision::Run { elapsed: 16, fps_report: None });
    assert_eq!(timer.before, 16);
}

#[test]
fn timer_reports_the_frame_count_once_per_second() {
    let mut timer = FrameTimer::new(0);
    let mut now = 0u64;
    let mut reports = Vec::new();
    for _ in 0..70 {
        now += 16;
        match timer.tick(now) {
            TimerDecision::Run { fps_report: Some(fps), .. } => reports.push((now, fps)),
            TimerDecision::Run { .. } => {},
            TimerDecision::Sleep(_) => panic!("a whole interval passed"),
        }
    }
    // 1120 ms of 16 ms frames: exactly one report, just past the second.
    assert_eq!(reports.len(), 1);
    let (at, fps) = reports[0];
    assert_eq!(at, 1008);
    assert_eq!(fps, 63);
}

#[test]
fn background_scrolls_and_wraps() {
    let mut renderer = Renderer::new(200_000, 100_000);
    let mut bg = Background { pos: 90_000, vel: 20_000, sprite: sprite(1, 100_000, 100_000) };
    bg.render(&mut renderer, 1000);
    // 20 pixels of scroll pushed the position past the tile width once.
    assert_eq!(bg.pos, 10_000);
    assert_eq!(bg.vel, 20_000);
}

#[test]
fn background_wrap_lands_on_zero_at_the_boundary() {
    // Reaching the tile width exactly wraps the position to zero, as a
    // modulo does.
    let mut renderer = Renderer::new(2_000, 2_000);
    let mut bg = Background { pos: 1_000, vel: 1_000, sprite: sprite(1, 2_000, 2_000) };
    bg.render(&mut renderer, 1_000);
    assert_eq!(bg.pos, 0);
}

#[test]
fn background_wraps_whole_widths_at_once() {
    // A jump of two and a half tile widths wraps fully, not once.
    let mut renderer = Renderer::new(200_000, 100_000);
    let mut bg = Background { pos: 0, vel: 1_000_000, sprite: sprite(1, 100_000, 100_000) };
    bg.render(&mut renderer, 250);
    assert_eq!(bg.pos, 50_000);
}

#[test]
fn background_tiles_cover_the_window() {
    let mut renderer = Renderer::new(200_000, 100_000);
    let mut bg = Background { pos: 0, vel: 20_000, sprite: sprite(1, 100_000, 100_000) };
    bg.render(&mut renderer, 1000);
    let commands = renderer.drain_commands();
    // Scroll offset 20 pixels, unit scale: tiles at -20, 80 and 180 pixels.
    assert_eq!(commands.len(), 3);
    match commands[0] {
        DrawCommand::CopyRegion { tex, dst, .. } => {
            assert_eq!(tex, 1);
            assert_eq!(dst.x, -20_000);
            assert_eq!(dst.w, 100_000);
            assert_eq!(dst.h, 100_000);
        },
        _ => panic!("background draws by blitting"),
    }
    match commands[2] {
        DrawCommand::CopyRegion { dst, .. } => assert_eq!(dst.x, 180_000),
        _ => panic!("background draws by blitting"),
    }
}

#[test]
fn background_scales_tiles_to_the_window_height() {
    let mut renderer = Renderer::new(300_000, 200_000);
    let mut bg = Background { pos: 0, vel: 0, sprite: sprite(1, 100_000, 100_000) };
    bg.render(&mut renderer, 16);
    let commands = renderer.drain_commands();
    // Doubled height doubles the tile width: two 200-pixel tiles suffice.
    assert_eq!(commands.len(), 2);
    match commands[0] {
        DrawCommand::CopyRegion { dst, .. } => {
            assert_eq!(dst.w, 200_000);
            assert_eq!(dst.h, 200_000);
        },
        _ => panic!("background draws by blitting"),
    }
}

#[test]
fn canonical_backdrop_velocities() {
    let bgs = Backgrounds::new(
        sprite(1, 800_000, 600_000),
        sprite(2, 800_000, 600_000),
        sprite(3, 800_000, 600_000),
    );
    assert_eq!(bgs.back.vel, 20_000);
    assert_eq!(bgs.middle.vel, 40_000);
    assert_eq!(bgs.front.vel, 80_000);
    assert_eq!(bgs.back.pos, 0);
}

#[test]
fn copy_sprite_records_one_blit() {
    let mut renderer = Renderer::new(800_000, 600_000);
    let s = sprite(4, 64_000, 64_000);
    let dst = Rectangle { x: 10_000, y: 20_000, w: 64_000, h: 64_000 };
    renderer.copy_sprite(&s, dst);
    let commands = renderer.drain_commands();
    assert_eq!(commands.len(), 1);
    match commands[0] {
        DrawCommand::CopyRegion { tex, src, dst: d } => {
            assert_eq!(tex, 4);
            assert_eq!(src, Rectangle { x: 0, y: 0, w: 64_000, h: 64_000 });
            assert_eq!(d, dst);
        },
        _ => panic!("copy_sprite must blit"),
    }
}

#[test]
fn draw_state_feeds_fill_commands() {
    let mut renderer = Renderer::new(800_000, 600_000);
    renderer.set_draw_color(arcaders::phi::gfx::Color { r: 1, g: 2, b: 3 });
    renderer.clear();
    let rect = Rectangle { x: 0, y: 0, w: 10_000, h: 10_000 };
    renderer.fill_rect(rect);
    let commands = renderer.drain_commands();
    assert_eq!(commands.len(), 2);
    let c = arcaders::phi::gfx::Color { r: 1, g: 2, b: 3 };
    assert_eq!(commands[0], DrawCommand::Clear(c));
    assert_eq!(commands[1], DrawCommand::FillRect(c, rect));
}
