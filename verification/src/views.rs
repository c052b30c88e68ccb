//! The game's views, and the loop protocol that owns exactly one of them:
//! each frame the loop pumps input, asks the active view to update and draw,
//! and interprets the returned directive (continue, quit, or replace the
//! view) under the pause/resume handoff protocol.

pub mod game;
pub mod main_menu;
pub mod shared;

use vstd::prelude::*;
use crate::phi::{Phi, ViewAction, ViewLifecycle};
use crate::phi::events::{lemma_folds_give_pumped, spec_pumped, Events, PlatformEvent};
use crate::views::game::ShipView;
use crate::views::main_menu::MainMenuView;

verus! {

/// The closed set of views the loop can own: the menu or the gameplay view.
pub enum GameView {
    Menu(MainMenuView),
    Ship(ShipView),
}

impl ViewLifecycle for MainMenuView {
    open spec fn view_req(&self, context: &Phi, elapsed: i64) -> bool {
        self.render_req(*context, elapsed)
    }

    open spec fn view_rel(
        &self,
        context: &Phi,
        elapsed: i64,
        view2: &MainMenuView,
        context2: &Phi,
        r: &ViewAction,
    ) -> bool {
        self.render_rel(*context, elapsed, *view2, *context2, *r)
    }

    fn render(&mut self, context: &mut Phi, elapsed: i64) -> (r: ViewAction) {
        MainMenuView::render(self, context, elapsed)
    }
}

impl ViewLifecycle for ShipView {
    open spec fn view_req(&self, context: &Phi, elapsed: i64) -> bool {
        self.render_req(*context, elapsed)
    }

    open spec fn view_rel(
        &self,
        context: &Phi,
        elapsed: i64,
        view2: &ShipView,
        context2: &Phi,
        r: &ViewAction,
    ) -> bool {
        self.render_rel(*context, elapsed, *view2, *context2, *r)
    }

    fn render(&mut self, context: &mut Phi, elapsed: i64) -> (r: ViewAction) {
        ShipView::render(self, context, elapsed)
    }
}

impl GameView {
    /// When the active view can accept a frame.
    pub open spec fn frame_req(self, phi: Phi, elapsed: i64) -> bool {
        match self {
            GameView::Menu(m) => m.render_req(phi, elapsed),
            GameView::Ship(s) => s.render_req(phi, elapsed),
        }
    }

    /// What one frame of the active view does: the view keeps its kind, and
    /// its own frame relation holds.
    pub open spec fn frame_rel(
        self,
        phi: Phi,
        elapsed: i64,
        self2: GameView,
        phi2: Phi,
        r: ViewAction,
    ) -> bool {
        match self {
            GameView::Menu(m) => self2 matches GameView::Menu(m2) && m.render_rel(
                phi,
                elapsed,
                m2,
                phi2,
                r,
            ),
            GameView::Ship(s) => self2 matches GameView::Ship(s2) && s.render_rel(
                phi,
                elapsed,
                s2,
                phi2,
                r,
            ),
        }
    }
}

impl ViewLifecycle for GameView {
    open spec fn view_req(&self, context: &Phi, elapsed: i64) -> bool {
        self.frame_req(*context, elapsed)
    }

    open spec fn view_rel(
        &self,
        context: &Phi,
        elapsed: i64,
        view2: &GameView,
        context2: &Phi,
        r: &ViewAction,
    ) -> bool {
        self.frame_rel(*context, elapsed, *view2, *context2, *r)
    }

    /// Dispatch the frame to whichever view is active.
    fn render(&mut self, context: &mut Phi, elapsed: i64) -> (r: ViewAction) {
        match self {
            GameView::Menu(m) => MainMenuView::render(m, context, elapsed),
            GameView::Ship(s) => ShipView::render(s, context, elapsed),
        }
    }
}

/// Which kind of view a lifecycle call addressed.
#[derive(Clone, Copy, PartialEq, Eq, Structural, Debug)]
pub enum ViewTag {
    Menu,
    Ship,
}

/// The kind of a view.
pub open spec fn spec_view_tag(v: GameView) -> ViewTag {
    match v {
        GameView::Menu(_) => ViewTag::Menu,
        GameView::Ship(_) => ViewTag::Ship,
    }
}

/// The kind of a view.
pub fn view_tag(v: &GameView) -> (r: ViewTag)
    ensures
        r == spec_view_tag(*v),
{
    match v {
        GameView::Menu(_) => ViewTag::Menu,
        GameView::Ship(_) => ViewTag::Ship,
    }
}

/// One lifecycle call the loop made while interpreting a directive, in
/// order: the instrument by which the handoff protocol is observable.
#[derive(Clone, Copy, PartialEq, Eq, Structural, Debug)]
pub enum LifecycleEvent {
    Paused(ViewTag),
    Resumed(ViewTag),
}

/// What the platform layer must do after a frame's directive has been
/// interpreted.
#[derive(Clone, Copy, PartialEq, Eq, Structural, Debug)]
pub enum FrameOutcome {
    /// Present the drawn frame and keep the same view.
    Present,
    /// The view was replaced: do not present the outgoing view's frame.
    Switched,
    /// Terminate the loop.
    Stop,
}

/// Interpret a view's directive under the transition protocol. On
/// `Continue` nothing changes hands and the frame is presented. On `Quit`
/// the active view is paused and the loop stops. On `ChangeView` the
/// outgoing view is paused, then the incoming view is resumed, in that
/// order, before the incoming view ever renders — and the outgoing frame
/// is not presented. The returned trace records the lifecycle calls in
/// order.
pub fn apply_directive(current: GameView, action: ViewAction, phi: &mut Phi) -> (r: (
    Option<GameView>,
    FrameOutcome,
    Vec<LifecycleEvent>,
))
    ensures
        *final(phi) == *old(phi),
        action is Continue ==> (r.0 matches Some(v) && v == current) && r.1
            == FrameOutcome::Present && r.2@ =~= Seq::<LifecycleEvent>::empty(),
        action is Quit ==> r.0 is None && r.1 == FrameOutcome::Stop && r.2@ =~= seq![
            LifecycleEvent::Paused(spec_view_tag(current)),
        ],
        action matches ViewAction::ChangeView(next) ==> (r.0 matches Some(v) && v == *next) && r.1
            == FrameOutcome::Switched && r.2@ =~= seq![
            LifecycleEvent::Paused(spec_view_tag(current)),
            LifecycleEvent::Resumed(spec_view_tag(*next)),
        ],
{
    match action {
        ViewAction::Continue => (Some(current), FrameOutcome::Present, Vec::new()),
        ViewAction::Quit => {
            let mut outgoing = current;
            let tag = view_tag(&outgoing);
            outgoing.pause(phi);
            (None, FrameOutcome::Stop, vec![LifecycleEvent::Paused(tag)])
        },
        ViewAction::ChangeView(next) => {
            let mut outgoing = current;
            let out_tag = view_tag(&outgoing);
            outgoing.pause(phi);
            let mut incoming = *next;
            let in_tag = view_tag(&incoming);
            incoming.resume(phi);
            (
                Some(incoming),
                FrameOutcome::Switched,
                vec![LifecycleEvent::Paused(out_tag), LifecycleEvent::Resumed(in_tag)],
            )
        },
    }
}

/// One accepted frame of the fixed-step loop: pump this tick's drained
/// platform events into the input snapshot, let the active view simulate
/// `elapsed` milliseconds and draw, then interpret its directive under the
/// transition protocol.
pub fn run_frame(
    current: GameView,
    phi: &mut Phi,
    events: &Vec<PlatformEvent>,
    elapsed: i64,
) -> (r: (Option<GameView>, FrameOutcome, Vec<LifecycleEvent>))
    requires
        current.frame_req(
            Phi { events: spec_pumped(old(phi).events, events@), ..*old(phi) },
            elapsed,
        ),
    ensures
        ({
            let pumped = Phi { events: spec_pumped(old(phi).events, events@), ..*old(phi) };
            exists|mid: GameView, action: ViewAction|
            {
                &&& #[trigger] current.frame_rel(pumped, elapsed, mid, *final(phi), action)
                &&& (action is Continue ==> (r.0 matches Some(v) && v == mid) && r.1
                    == FrameOutcome::Present && r.2@ =~= Seq::<LifecycleEvent>::empty())
                &&& (action is Quit ==> r.0 is None && r.1 == FrameOutcome::Stop && r.2@ =~= seq![
                    LifecycleEvent::Paused(spec_view_tag(mid)),
                ])
                &&& (action matches ViewAction::ChangeView(next) ==> (r.0 matches Some(v) && v
                    == *next) && r.1 == FrameOutcome::Switched && r.2@ =~= seq![
                    LifecycleEvent::Paused(spec_view_tag(mid)),
                    LifecycleEvent::Resumed(spec_view_tag(*next)),
                ])
            }
        }),
{
    let ghost before: Events = phi.events;
    phi.events.pump(events);
    proof {
        lemma_folds_give_pumped(before, events@, phi.events);
        assert(*phi == (Phi { events: spec_pumped(before, events@), ..*old(phi) }));
    }
    let mut view = current;
    let action = view.render(phi, elapsed);
    let ghost mid_view = view;
    let ghost mid_action = action;
    let ghost mid_phi = *phi;
    let result = apply_directive(view, action, phi);
    proof {
        assert(*phi == mid_phi);
        assert(current.frame_rel(
            Phi { events: spec_pumped(old(phi).events, events@), ..*old(phi) },
            elapsed,
            mid_view,
            *phi,
            mid_action,
        ));
    }
    result
}

} // verus!
