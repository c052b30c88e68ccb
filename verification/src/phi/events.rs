//! Input snapshot system: one synchronous drain of the platform's pending
//! events per tick, producing an edge-triggered "this frame" snapshot plus a
//! persistent "currently held" key-state table.
//!
//! The platform layer drains its event queue into a list of
//! [`PlatformEvent`]s and hands the list to [`Events::pump`] once per
//! accepted frame; everything the game reacts to is decided here.

use vstd::prelude::*;

verus! {

/// The keys the engine tracks. No two of them alias the same physical key.
#[derive(Clone, Copy, PartialEq, Eq, Structural, Debug)]
pub enum Key {
    Escape,
    Up,
    Down,
    Left,
    Right,
    Space,
    Return,
    Num1,
    Num2,
    Num3,
}

/// One raw platform event, in the order the platform reported it.
#[derive(Clone, Copy, PartialEq, Eq, Structural, Debug)]
pub enum PlatformEvent {
    /// The application was asked to quit.
    Quit,
    /// The window was resized to the given logical output size, in
    /// millipixels.
    Resize(i64, i64),
    /// A key went down (the platform may repeat this while the key is held).
    KeyDown(Key),
    /// A key went up.
    KeyUp(Key),
    /// Any event the engine does not recognize.
    Other,
}

/// The per-frame edge snapshot: for every tracked key, `Some(true)` means
/// pressed this frame, `Some(false)` released this frame, `None` no edge;
/// plus the frame-scoped quit flag and the latest resize payload.
#[derive(Clone, Copy, Debug)]
pub struct ImmediateEvents {
    pub resize: Option<(i64, i64)>,
    pub key_escape: Option<bool>,
    pub key_up: Option<bool>,
    pub key_down: Option<bool>,
    pub key_left: Option<bool>,
    pub key_right: Option<bool>,
    pub key_space: Option<bool>,
    pub key_return: Option<bool>,
    pub key_1: Option<bool>,
    pub key_2: Option<bool>,
    pub key_3: Option<bool>,
    pub quit: bool,
}

impl ImmediateEvents {
    /// The edge recorded this frame for key `k`.
    pub open spec fn edge_of(self, k: Key) -> Option<bool> {
        match k {
            Key::Escape => self.key_escape,
            Key::Up => self.key_up,
            Key::Down => self.key_down,
            Key::Left => self.key_left,
            Key::Right => self.key_right,
            Key::Space => self.key_space,
            Key::Return => self.key_return,
            Key::Num1 => self.key_1,
            Key::Num2 => self.key_2,
            Key::Num3 => self.key_3,
        }
    }

    /// A snapshot in which nothing has happened yet.
    pub fn new() -> (r: ImmediateEvents)
        ensures
            r.resize is None,
            forall|k: Key| #[trigger] r.edge_of(k) is None,
            !r.quit,
    {
        ImmediateEvents {
            resize: None,
            key_escape: None,
            key_up: None,
            key_down: None,
            key_left: None,
            key_right: None,
            key_space: None,
            key_return: None,
            key_1: None,
            key_2: None,
            key_3: None,
            quit: false,
        }
    }
}

/// The input state: the persistent held-state table and this frame's edge
/// snapshot.
#[derive(Clone, Copy, Debug)]
pub struct Events {
    pub now: ImmediateEvents,
    pub key_escape: bool,
    pub key_up: bool,
    pub key_down: bool,
    pub key_left: bool,
    pub key_right: bool,
    pub key_space: bool,
    pub key_return: bool,
    pub key_1: bool,
    pub key_2: bool,
    pub key_3: bool,
}

/// The held state and edge for key `k` after processing event `e`, starting
/// from held state `held` and edge `edge`. A key-down only records a pressed
/// edge on the transition from not-held to held; a key-up always records a
/// released edge.
pub open spec fn key_step(
    held: bool,
    edge: Option<bool>,
    e: PlatformEvent,
    k: Key,
) -> (bool, Option<bool>) {
    match e {
        PlatformEvent::KeyDown(k2) => if k2 == k {
            (true, if !held { Some(true) } else { edge })
        } else {
            (held, edge)
        },
        PlatformEvent::KeyUp(k2) => if k2 == k {
            (false, Some(false))
        } else {
            (held, edge)
        },
        _ => (held, edge),
    }
}

/// The held state and edge for key `k` after one pump that starts with held
/// state `init_held` and drains the events `evs` in order.
pub open spec fn key_fold(init_held: bool, evs: Seq<PlatformEvent>, k: Key) -> (bool, Option<
    bool,
>)
    decreases evs.len(),
{
    if evs.len() == 0 {
        (init_held, None::<bool>)
    } else {
        let prev = key_fold(init_held, evs.drop_last(), k);
        key_step(prev.0, prev.1, evs.last(), k)
    }
}

/// Whether a pump that drains `evs` sees a quit request.
pub open spec fn quit_fold(evs: Seq<PlatformEvent>) -> bool
    decreases evs.len(),
{
    if evs.len() == 0 {
        false
    } else {
        quit_fold(evs.drop_last()) || evs.last() is Quit
    }
}

/// The resize payload a pump that drains `evs` records: the latest resize
/// wins.
pub open spec fn resize_fold(evs: Seq<PlatformEvent>) -> Option<(i64, i64)>
    decreases evs.len(),
{
    if evs.len() == 0 {
        None::<(i64, i64)>
    } else {
        match evs.last() {
            PlatformEvent::Resize(w, h) => Some((w, h)),
            _ => resize_fold(evs.drop_last()),
        }
    }
}


/// The whole input state one pump that drains `evs` produces from `before`:
/// every key's held state and edge by its fold, the quit flag, the latest
/// resize payload.
pub open spec fn spec_pumped(before: Events, evs: Seq<PlatformEvent>) -> Events {
    Events {
        now: ImmediateEvents {
            resize: resize_fold(evs),
            key_escape: key_fold(before.key_escape, evs, Key::Escape).1,
            key_up: key_fold(before.key_up, evs, Key::Up).1,
            key_down: key_fold(before.key_down, evs, Key::Down).1,
            key_left: key_fold(before.key_left, evs, Key::Left).1,
            key_right: key_fold(before.key_right, evs, Key::Right).1,
            key_space: key_fold(before.key_space, evs, Key::Space).1,
            key_return: key_fold(before.key_return, evs, Key::Return).1,
            key_1: key_fold(before.key_1, evs, Key::Num1).1,
            key_2: key_fold(before.key_2, evs, Key::Num2).1,
            key_3: key_fold(before.key_3, evs, Key::Num3).1,
            quit: quit_fold(evs),
        },
        key_escape: key_fold(before.key_escape, evs, Key::Escape).0,
        key_up: key_fold(before.key_up, evs, Key::Up).0,
        key_down: key_fold(before.key_down, evs, Key::Down).0,
        key_left: key_fold(before.key_left, evs, Key::Left).0,
        key_right: key_fold(before.key_right, evs, Key::Right).0,
        key_space: key_fold(before.key_space, evs, Key::Space).0,
        key_return: key_fold(before.key_return, evs, Key::Return).0,
        key_1: key_fold(before.key_1, evs, Key::Num1).0,
        key_2: key_fold(before.key_2, evs, Key::Num2).0,
        key_3: key_fold(before.key_3, evs, Key::Num3).0,
    }
}

impl Events {
    /// Whether key `k` is currently held.
    pub open spec fn held_of(self, k: Key) -> bool {
        match k {
            Key::Escape => self.key_escape,
            Key::Up => self.key_up,
            Key::Down => self.key_down,
            Key::Left => self.key_left,
            Key::Right => self.key_right,
            Key::Space => self.key_space,
            Key::Return => self.key_return,
            Key::Num1 => self.key_1,
            Key::Num2 => self.key_2,
            Key::Num3 => self.key_3,
        }
    }

    /// A fresh input state: no key held, nothing happened this frame.
    pub fn new() -> (r: Events)
        ensures
            forall|k: Key| !(#[trigger] r.held_of(k)),
            forall|k: Key| #[trigger] r.now.edge_of(k) is None,
            r.now.resize is None,
            !r.now.quit,
    {
        Events {
            now: ImmediateEvents::new(),
            key_escape: false,
            key_up: false,
            key_down: false,
            key_left: false,
            key_right: false,
            key_space: false,
            key_return: false,
            key_1: false,
            key_2: false,
            key_3: false,
        }
    }


    /// Whether key `k` is currently held.
    fn is_held(&self, k: Key) -> (r: bool)
        ensures
            r == self.held_of(k),
    {
        match k {
            Key::Escape => self.key_escape,
            Key::Up => self.key_up,
            Key::Down => self.key_down,
            Key::Left => self.key_left,
            Key::Right => self.key_right,
            Key::Space => self.key_space,
            Key::Return => self.key_return,
            Key::Num1 => self.key_1,
            Key::Num2 => self.key_2,
            Key::Num3 => self.key_3,
        }
    }

    /// Update the held-state table for key `k` alone.
    fn set_held(&mut self, k: Key, v: bool)
        ensures
            forall|k2: Key| #[trigger] final(self).held_of(k2) == if k2 == k {
                v
            } else {
                old(self).held_of(k2)
            },
            final(self).now == old(self).now,
    {
        match k {
            Key::Escape => self.key_escape = v,
            Key::Up => self.key_up = v,
            Key::Down => self.key_down = v,
            Key::Left => self.key_left = v,
            Key::Right => self.key_right = v,
            Key::Space => self.key_space = v,
            Key::Return => self.key_return = v,
            Key::Num1 => self.key_1 = v,
            Key::Num2 => self.key_2 = v,
            Key::Num3 => self.key_3 = v,
        }
    }

    /// Record an edge for key `k` alone in this frame's snapshot.
    fn set_edge(&mut self, k: Key, e: Option<bool>)
        ensures
            forall|k2: Key| #[trigger] final(self).now.edge_of(k2) == if k2 == k {
                e
            } else {
                old(self).now.edge_of(k2)
            },
            forall|k2: Key| #[trigger] final(self).held_of(k2) == old(self).held_of(k2),
            final(self).now.quit == old(self).now.quit,
            final(self).now.resize == old(self).now.resize,
    {
        match k {
            Key::Escape => self.now.key_escape = e,
            Key::Up => self.now.key_up = e,
            Key::Down => self.now.key_down = e,
            Key::Left => self.now.key_left = e,
            Key::Right => self.now.key_right = e,
            Key::Space => self.now.key_space = e,
            Key::Return => self.now.key_return = e,
            Key::Num1 => self.now.key_1 = e,
            Key::Num2 => self.now.key_2 = e,
            Key::Num3 => self.now.key_3 = e,
        }
    }

    /// Apply one raw event to the held-state table and edge snapshot.
    fn apply_event(&mut self, ev: PlatformEvent)
        ensures
            forall|k: Key| #[trigger] final(self).held_of(k) == key_step(
                old(self).held_of(k),
                old(self).now.edge_of(k),
                ev,
                k,
            ).0,
            forall|k: Key| #[trigger] final(self).now.edge_of(k) == key_step(
                old(self).held_of(k),
                old(self).now.edge_of(k),
                ev,
                k,
            ).1,
            final(self).now.quit == (old(self).now.quit || ev is Quit),
            final(self).now.resize == (match ev {
                PlatformEvent::Resize(w, h) => Some((w, h)),
                _ => old(self).now.resize,
            }),
    {
        match ev {
            PlatformEvent::Quit => {
                self.now.quit = true;
            },
            PlatformEvent::Resize(w, h) => {
                self.now.resize = Some((w, h));
            },
            PlatformEvent::KeyDown(key) => {
                if !self.is_held(key) {
                    self.set_edge(key, Some(true));
                }
                self.set_held(key, true);
            },
            PlatformEvent::KeyUp(key) => {
                self.set_edge(key, Some(false));
                self.set_held(key, false);
            },
            PlatformEvent::Other => {},
        }
    }

    /// Drain one tick's worth of platform events: reset the edge snapshot,
    /// then replay `events` in order against the held-state table, recording
    /// press edges only on not-held-to-held transitions, release edges
    /// always, the quit request, and the latest resize payload.
    #[verifier::rlimit(100)]
    #[verifier::spinoff_prover]
    pub fn pump(&mut self, events: &Vec<PlatformEvent>)
        ensures
            forall|k: Key| #[trigger] final(self).held_of(k) == key_fold(
                old(self).held_of(k),
                events@,
                k,
            ).0,
            forall|k: Key| #[trigger] final(self).now.edge_of(k) == key_fold(
                old(self).held_of(k),
                events@,
                k,
            ).1,
            final(self).now.quit == quit_fold(events@),
            final(self).now.resize == resize_fold(events@),
    {
        self.now = ImmediateEvents::new();
        let n = events.len();
        let mut i: usize = 0;
        while i < n
            invariant
                n == events@.len(),
                i <= n,
                forall|k: Key| #[trigger] self.held_of(k) == key_fold(
                    old(self).held_of(k),
                    events@.subrange(0, i as int),
                    k,
                ).0,
                forall|k: Key| #[trigger] self.now.edge_of(k) == key_fold(
                    old(self).held_of(k),
                    events@.subrange(0, i as int),
                    k,
                ).1,
                self.now.quit == quit_fold(events@.subrange(0, i as int)),
                self.now.resize == resize_fold(events@.subrange(0, i as int)),
            decreases n - i,
        {
            let ev = events[i];
            let ghost pre = *self;
            self.apply_event(ev);
            proof {
                let evs0 = events@.subrange(0, i as int);
                let evs1 = events@.subrange(0, i + 1);
                assert(evs1.drop_last() =~= evs0);
                assert(evs1.last() == events@[i as int]);
                assert forall|k: Key|
                    #[trigger] self.held_of(k) == key_fold(old(self).held_of(k), evs1, k).0 by {
                    assert(pre.held_of(k) == key_fold(old(self).held_of(k), evs0, k).0);
                    assert(pre.now.edge_of(k) == key_fold(old(self).held_of(k), evs0, k).1);
                    assert(key_fold(old(self).held_of(k), evs1, k) == key_step(
                        key_fold(old(self).held_of(k), evs0, k).0,
                        key_fold(old(self).held_of(k), evs0, k).1,
                        events@[i as int],
                        k,
                    ));
                    assert(self.held_of(k) == key_step(pre.held_of(k), pre.now.edge_of(k), ev, k).0);
                }
                assert forall|k: Key|
                    #[trigger] self.now.edge_of(k) == key_fold(old(self).held_of(k), evs1, k).1 by {
                    assert(pre.held_of(k) == key_fold(old(self).held_of(k), evs0, k).0);
                    assert(pre.now.edge_of(k) == key_fold(old(self).held_of(k), evs0, k).1);
                    assert(key_fold(old(self).held_of(k), evs1, k) == key_step(
                        key_fold(old(self).held_of(k), evs0, k).0,
                        key_fold(old(self).held_of(k), evs0, k).1,
                        events@[i as int],
                        k,
                    ));
                    assert(self.now.edge_of(k) == key_step(pre.held_of(k), pre.now.edge_of(k), ev, k).1);
                }
                assert(quit_fold(evs1) == (quit_fold(evs0) || events@[i as int] is Quit));
            }
            i = i + 1;
        }
        proof {
            assert(events@.subrange(0, n as int) =~= events@);
        }
    }
}

/// An input state whose held table, edges, quit flag and resize payload all
/// match the folds of one pump is exactly the pumped state.
pub proof fn lemma_folds_give_pumped(before: Events, evs: Seq<PlatformEvent>, after: Events)
    requires
        forall|k: Key| #[trigger] after.held_of(k) == key_fold(before.held_of(k), evs, k).0,
        forall|k: Key| #[trigger] after.now.edge_of(k) == key_fold(before.held_of(k), evs, k).1,
        after.now.quit == quit_fold(evs),
        after.now.resize == resize_fold(evs),
    ensures
        after == spec_pumped(before, evs),
{
    assert(after.held_of(Key::Escape) == key_fold(before.held_of(Key::Escape), evs, Key::Escape).0);
    assert(after.held_of(Key::Up) == key_fold(before.held_of(Key::Up), evs, Key::Up).0);
    assert(after.held_of(Key::Down) == key_fold(before.held_of(Key::Down), evs, Key::Down).0);
    assert(after.held_of(Key::Left) == key_fold(before.held_of(Key::Left), evs, Key::Left).0);
    assert(after.held_of(Key::Right) == key_fold(before.held_of(Key::Right), evs, Key::Right).0);
    assert(after.held_of(Key::Space) == key_fold(before.held_of(Key::Space), evs, Key::Space).0);
    assert(after.held_of(Key::Return) == key_fold(before.held_of(Key::Return), evs, Key::Return).0);
    assert(after.held_of(Key::Num1) == key_fold(before.held_of(Key::Num1), evs, Key::Num1).0);
    assert(after.held_of(Key::Num2) == key_fold(before.held_of(Key::Num2), evs, Key::Num2).0);
    assert(after.held_of(Key::Num3) == key_fold(before.held_of(Key::Num3), evs, Key::Num3).0);
    assert(after.now.edge_of(Key::Escape) == key_fold(
        before.held_of(Key::Escape),
        evs,
        Key::Escape,
    ).1);
    assert(after.now.edge_of(Key::Up) == key_fold(before.held_of(Key::Up), evs, Key::Up).1);
    assert(after.now.edge_of(Key::Down) == key_fold(before.held_of(Key::Down), evs, Key::Down).1);
    assert(after.now.edge_of(Key::Left) == key_fold(before.held_of(Key::Left), evs, Key::Left).1);
    assert(after.now.edge_of(Key::Right) == key_fold(
        before.held_of(Key::Right),
        evs,
        Key::Right,
    ).1);
    assert(after.now.edge_of(Key::Space) == key_fold(
        before.held_of(Key::Space),
        evs,
        Key::Space,
    ).1);
    assert(after.now.edge_of(Key::Return) == key_fold(
        before.held_of(Key::Return),
        evs,
        Key::Return,
    ).1);
    assert(after.now.edge_of(Key::Num1) == key_fold(before.held_of(Key::Num1), evs, Key::Num1).1);
    assert(after.now.edge_of(Key::Num2) == key_fold(before.held_of(Key::Num2), evs, Key::Num2).1);
    assert(after.now.edge_of(Key::Num3) == key_fold(before.held_of(Key::Num3), evs, Key::Num3).1);
}

} // verus!
