//! The views and the loop's transition protocol, driven headlessly.

use arcaders::phi::data::Rectangle;
use arcaders::phi::events::{Events, Key, PlatformEvent};
use arcaders::phi::gfx::{DrawCommand, Renderer, Sprite, Texture};
use arcaders::phi::{Phi, ViewAction};
use arcaders::views::game::{Bullet, CannonType, ShipFrame, ShipView, ASTEROID_SIDE};
use arcaders::views::main_menu::MainMenuView;
use arcaders::views::shared::GameAssets;
use arcaders::views::{
    apply_directive, run_frame, FrameOutcome, GameView, LifecycleEvent, ViewTag,
};

fn sprite(id: u64, w: i64, h: i64) -> Sprite {
    Sprite::new(Texture { id, width: w, height: h })
}

fn test_assets() -> GameAssets {
    GameAssets {
        ship_sheet: sprite(1, 129_000, 117_000),
        asteroid_sheet: sprite(2, 2_016_000, 672_000),
        star_back: sprite(3, 800_000, 600_000),
        star_middle: sprite(4, 800_000, 600_000),
        star_front: sprite(5, 800_000, 600_000),
        menu_new_game_idle: sprite(6, 150_000, 40_000),
        menu_new_game_hover: sprite(7, 150_000, 40_000),
        menu_quit_idle: sprite(8, 80_000, 40_000),
        menu_quit_hover: sprite(9, 80_000, 40_000),
    }
}

fn test_phi() -> Phi {
    Phi::new(Events::new(), Renderer::new(800_000, 600_000))
}

fn held(phi: &mut Phi, keys: &[Key]) {
    let evs: Vec<PlatformEvent> = keys.iter().map(|k| PlatformEvent::KeyDown(*k)).collect();
    phi.events.pump(&evs);
}

#[test]
fn diagonal_movement_is_normalized() {
    // With left and up both held, 180 px/s for one second moves each axis
    // by 180/sqrt(2) pixels: -127.279 pixels in millipixel truncation.
    let mut phi = test_phi();
    let mut view = ShipView::new(&mut phi, test_assets());
    view.player.rect.x = 300_000;
    view.player.rect.y = 300_000;
    held(&mut phi, &[Key::Left, Key::Up]);
    let action = view.render(&mut phi, 1000);
    assert!(matches!(action, ViewAction::Continue));
    assert_eq!(view.player.rect.x, 300_000 - 127_279);
    assert_eq!(view.player.rect.y, 300_000 - 127_279);
    assert!(matches!(view.player.current, ShipFrame::UpSlow));
}

#[test]
fn axial_movement_is_full_speed() {
    let mut phi = test_phi();
    let mut view = ShipView::new(&mut phi, test_assets());
    view.player.rect.x = 300_000;
    view.player.rect.y = 300_000;
    held(&mut phi, &[Key::Right]);
    view.render(&mut phi, 1000);
    assert_eq!(view.player.rect.x, 480_000);
    assert_eq!(view.player.rect.y, 300_000);
    assert!(matches!(view.player.current, ShipFrame::MidFast));
}

#[test]
fn opposite_keys_cancel() {
    let mut phi = test_phi();
    let mut view = ShipView::new(&mut phi, test_assets());
    view.player.rect.x = 300_000;
    view.player.rect.y = 300_000;
    held(&mut phi, &[Key::Left, Key::Right, Key::Down, Key::Up]);
    view.render(&mut phi, 1000);
    assert_eq!(view.player.rect.x, 300_000);
    assert_eq!(view.player.rect.y, 300_000);
    assert!(matches!(view.player.current, ShipFrame::MidNorm));
}

#[test]
fn ship_is_clamped_into_the_movement_bound() {
    let mut phi = test_phi();
    let mut view = ShipView::new(&mut phi, test_assets());
    view.player.rect.x = 10_000;
    view.player.rect.y = 10_000;
    held(&mut phi, &[Key::Left, Key::Up]);
    view.render(&mut phi, 1000);
    assert_eq!(view.player.rect.x, 0);
    assert_eq!(view.player.rect.y, 0);
}

#[test]
fn space_fires_from_both_cannons() {
    let mut phi = test_phi();
    let mut view = ShipView::new(&mut phi, test_assets());
    held(&mut phi, &[Key::Space]);
    view.render(&mut phi, 16);
    assert_eq!(view.bullets.len(), 2);
    // Holding space across the next frame gives no new edge: no new shot.
    held(&mut phi, &[Key::Space]);
    view.render(&mut phi, 16);
    assert_eq!(view.bullets.len(), 2);
}

#[test]
fn number_keys_switch_cannons() {
    let mut phi = test_phi();
    let mut view = ShipView::new(&mut phi, test_assets());
    held(&mut phi, &[Key::Num2, Key::Space]);
    view.render(&mut phi, 16);
    assert!(matches!(
        view.player.cannon,
        CannonType::SineBullet { amplitude: 10_000, angular_vel: 15_000 }
    ));
    assert!(matches!(view.bullets[0], Bullet::Sine(_)));
    held(&mut phi, &[Key::Num3]);
    view.render(&mut phi, 16);
    assert!(matches!(view.player.cannon, CannonType::DivergentBullet { a: 100_000, b: 1_200 }));
}

#[test]
fn quit_event_quits_the_gameplay_view() {
    let mut phi = test_phi();
    let mut view = ShipView::new(&mut phi, test_assets());
    phi.events.pump(&vec![PlatformEvent::Quit]);
    assert!(matches!(view.render(&mut phi, 16), ViewAction::Quit));
}

#[test]
fn escape_returns_to_the_menu_with_the_same_backdrop() {
    let mut phi = test_phi();
    let mut view = ShipView::new(&mut phi, test_assets());
    view.render(&mut phi, 16);
    let scrolled = view.backgrounds.back.pos;
    phi.events.pump(&vec![PlatformEvent::KeyDown(Key::Escape)]);
    match view.render(&mut phi, 16) {
        ViewAction::ChangeView(next) => match *next {
            GameView::Menu(menu) => {
                assert_eq!(menu.selected, 0);
                assert_eq!(menu.actions.len(), 2);
                assert_eq!(menu.backgrounds.back.pos, scrolled);
            },
            _ => panic!("escape must hand control to the menu"),
        },
        _ => panic!("escape must replace the view"),
    }
}

#[test]
fn asteroid_respawns_at_the_right_edge() {
    // Once the asteroid's box has fully left through the left edge, the
    // next update puts it back at the screen's right edge with a fresh
    // vertical position fully on screen.
    let mut phi = test_phi();
    let mut view = ShipView::new(&mut phi, test_assets());
    view.asteroid.rect.x = -ASTEROID_SIDE - 1;
    view.render(&mut phi, 16);
    assert_eq!(view.asteroid.rect.x, 800_000);
    assert!(view.asteroid.rect.y >= 0);
    assert!(view.asteroid.rect.y <= 600_000 - ASTEROID_SIDE);
    assert!(view.asteroid.vel >= 50_000 && view.asteroid.vel < 150_000);
}

#[test]
fn fresh_asteroid_rate_and_clock() {
    // A fresh gameplay view's asteroid animates between 10 and 30 frames
    // per second (a per-frame duration of 33 to 100 ms) with its clock at
    // zero, and a respawn redraws the rate within the same range.
    let mut phi = test_phi();
    let mut view = ShipView::new(&mut phi, test_assets());
    assert!(view.asteroid.sprite.frame_delay >= 33);
    assert!(view.asteroid.sprite.frame_delay <= 100);
    assert_eq!(view.asteroid.sprite.current_time, 0);
    view.asteroid.rect.x = -ASTEROID_SIDE - 1;
    view.render(&mut phi, 16);
    assert!(view.asteroid.sprite.frame_delay >= 33);
    assert!(view.asteroid.sprite.frame_delay <= 100);
}

#[test]
fn asteroid_travels_left() {
    let mut phi = test_phi();
    let mut view = ShipView::new(&mut phi, test_assets());
    view.asteroid.rect.x = 400_000;
    view.asteroid.vel = 100_000;
    view.render(&mut phi, 1000);
    assert_eq!(view.asteroid.rect.x, 300_000);
}

#[test]
fn frame_starts_with_a_clear() {
    let mut phi = test_phi();
    let mut view = ShipView::new(&mut phi, test_assets());
    view.render(&mut phi, 16);
    let commands = phi.renderer.drain_commands();
    assert!(commands.len() > 4);
    assert!(matches!(commands[0], DrawCommand::Clear(_)));
    assert!(phi.renderer.drain_commands().is_empty());
}

#[test]
fn menu_selection_wraps_both_ways() {
    let mut phi = test_phi();
    let mut menu = MainMenuView::new(test_assets());
    held(&mut phi, &[Key::Up]);
    assert!(matches!(menu.render(&mut phi, 16), ViewAction::Continue));
    assert_eq!(menu.selected, 1);
    phi.events.pump(&vec![PlatformEvent::KeyUp(Key::Up), PlatformEvent::KeyDown(Key::Down)]);
    menu.render(&mut phi, 16);
    assert_eq!(menu.selected, 0);
}

#[test]
fn menu_return_starts_a_new_game() {
    let mut phi = test_phi();
    let mut menu = MainMenuView::new(test_assets());
    menu.render(&mut phi, 16);
    held(&mut phi, &[Key::Return]);
    match menu.render(&mut phi, 16) {
        ViewAction::ChangeView(next) => match *next {
            GameView::Ship(ship) => {
                assert_eq!(ship.bullets.len(), 0);
                assert_eq!(
                    ship.player.rect,
                    Rectangle { x: 64_000, y: 64_000, w: 43_000, h: 39_000 }
                );
                // The menu's scrolled backdrop carries over seamlessly.
                assert_eq!(ship.backgrounds.back.pos, menu.backgrounds.back.pos);
            },
            _ => panic!("the first entry must start a game"),
        },
        _ => panic!("the first entry must replace the view"),
    }
}

#[test]
fn menu_second_entry_quits() {
    let mut phi = test_phi();
    let mut menu = MainMenuView::new(test_assets());
    held(&mut phi, &[Key::Down]);
    menu.render(&mut phi, 16);
    assert_eq!(menu.selected, 1);
    phi.events.pump(&vec![PlatformEvent::KeyUp(Key::Down), PlatformEvent::KeyDown(Key::Space)]);
    assert!(matches!(menu.render(&mut phi, 16), ViewAction::Quit));
}

#[test]
fn replace_pauses_then_resumes_before_the_first_render() {
    // The transition protocol: a ReplaceWith directive from view A to view
    // B invokes A's pause, then B's resume, in that order, before B ever
    // renders, and the outgoing frame is not presented.
    let mut phi = test_phi();
    let menu = MainMenuView::new(test_assets());
    let ship = ShipView::new(&mut phi, test_assets());
    let directive = ViewAction::ChangeView(Box::new(GameView::Ship(ship)));
    let (next, outcome, trace) = apply_directive(GameView::Menu(menu), directive, &mut phi);
    assert!(matches!(outcome, FrameOutcome::Switched));
    assert_eq!(
        trace,
        vec![LifecycleEvent::Paused(ViewTag::Menu), LifecycleEvent::Resumed(ViewTag::Ship)]
    );
    assert!(matches!(next, Some(GameView::Ship(_))));
}

#[test]
fn quit_directive_pauses_and_stops() {
    let mut phi = test_phi();
    let menu = MainMenuView::new(test_assets());
    let (next, outcome, trace) = apply_directive(GameView::Menu(menu), ViewAction::Quit, &mut phi);
    assert!(next.is_none());
    assert!(matches!(outcome, FrameOutcome::Stop));
    assert_eq!(trace, vec![LifecycleEvent::Paused(ViewTag::Menu)]);
}

#[test]
fn continue_directive_presents_without_lifecycle_calls() {
    let mut phi = test_phi();
    let menu = MainMenuView::new(test_assets());
    let (next, outcome, trace) =
        apply_directive(GameView::Menu(menu), ViewAction::Continue, &mut phi);
    assert!(matches!(outcome, FrameOutcome::Present));
    assert!(trace.is_empty());
    assert!(matches!(next, Some(GameView::Menu(_))));
}

#[test]
fn run_frame_pumps_and_dispatches() {
    let mut phi = test_phi();
    let menu = MainMenuView::new(test_assets());
    let (next, outcome, trace) = run_frame(
        GameView::Menu(menu),
        &mut phi,
        &vec![PlatformEvent::KeyDown(Key::Down)],
        16,
    );
    assert!(matches!(outcome, FrameOutcome::Present));
    assert!(trace.is_empty());
    match next {
        Some(GameView::Menu(m)) => assert_eq!(m.selected, 1),
        _ => panic!("a continue frame keeps the menu"),
    }
    // A quit event ends the loop through the same path.
    let menu2 = MainMenuView::new(test_assets());
    let (next2, outcome2, _) =
        run_frame(GameView::Menu(menu2), &mut phi, &vec![PlatformEvent::Quit], 16);
    assert!(next2.is_none());
    assert!(matches!(outcome2, FrameOutcome::Stop));
}
