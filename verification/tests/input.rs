//! The edge-triggered input snapshot: one press edge, silence while held,
//! one release edge, whatever the platform repeats.

use arcaders::phi::events::{Events, Key, PlatformEvent};

#[test]
fn press_produces_one_edge_despite_repeats() {
    let mut ev = Events::new();
    ev.pump(&vec![
        PlatformEvent::KeyDown(Key::Left),
        PlatformEvent::KeyDown(Key::Left),
        PlatformEvent::KeyDown(Key::Left),
    ]);
    assert_eq!(ev.now.key_left, Some(true));
    assert!(ev.key_left);
    assert_eq!(ev.now.key_right, None);
    assert!(!ev.key_right);
}

#[test]
fn holding_gives_no_edge_until_release() {
    let mut ev = Events::new();
    // Press frame.
    ev.pump(&vec![PlatformEvent::KeyDown(Key::Space)]);
    assert_eq!(ev.now.key_space, Some(true));
    // Held frames: the platform keeps repeating key-down.
    ev.pump(&vec![PlatformEvent::KeyDown(Key::Space), PlatformEvent::KeyDown(Key::Space)]);
    assert_eq!(ev.now.key_space, None);
    assert!(ev.key_space);
    ev.pump(&vec![]);
    assert_eq!(ev.now.key_space, None);
    assert!(ev.key_space);
    // Release frame.
    ev.pump(&vec![PlatformEvent::KeyDown(Key::Space), PlatformEvent::KeyUp(Key::Space)]);
    assert_eq!(ev.now.key_space, Some(false));
    assert!(!ev.key_space);
}

#[test]
fn edges_reset_every_pump() {
    let mut ev = Events::new();
    ev.pump(&vec![PlatformEvent::KeyDown(Key::Up)]);
    assert_eq!(ev.now.key_up, Some(true));
    ev.pump(&vec![PlatformEvent::KeyDown(Key::Down)]);
    assert_eq!(ev.now.key_up, None);
    assert_eq!(ev.now.key_down, Some(true));
    assert!(ev.key_up && ev.key_down);
}

#[test]
fn quit_is_frame_scoped() {
    let mut ev = Events::new();
    ev.pump(&vec![PlatformEvent::Other, PlatformEvent::Quit]);
    assert!(ev.now.quit);
    ev.pump(&vec![]);
    assert!(!ev.now.quit);
}

#[test]
fn latest_resize_wins() {
    let mut ev = Events::new();
    ev.pump(&vec![
        PlatformEvent::Resize(640_000, 480_000),
        PlatformEvent::KeyDown(Key::Num1),
        PlatformEvent::Resize(800_000, 600_000),
    ]);
    assert_eq!(ev.now.resize, Some((800_000, 600_000)));
    ev.pump(&vec![]);
    assert_eq!(ev.now.resize, None);
}

#[test]
fn release_edge_is_unconditional() {
    let mut ev = Events::new();
    // A key-up with no recorded press still records a release edge.
    ev.pump(&vec![PlatformEvent::KeyUp(Key::Escape)]);
    assert_eq!(ev.now.key_escape, Some(false));
    assert!(!ev.key_escape);
}
