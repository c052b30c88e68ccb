//! The main menu: a fixed list of labelled actions the player moves through
//! with the directional keys and executes with space or return.

use vstd::prelude::*;
use crate::phi::data::{spec_div_trunc, div_trunc, Rectangle, SCREEN_BOUND};
use crate::phi::gfx::{Color, DrawCommand, Sprite};
use crate::phi::{Phi, ViewAction};
use crate::views::shared::{Backgrounds, GameAssets};

verus! {

/// The closed set of things a menu entry can do.
#[derive(Clone, Copy, PartialEq, Eq, Structural, Debug)]
pub enum MenuActionKind {
    /// Hand control to a fresh gameplay view.
    NewGame,
    /// Quit the game.
    QuitGame,
}

/// One menu entry: what it does, and the label sprites rendered when it is
/// idle and when the player's selection rests on it.
#[derive(Clone, Copy, Debug)]
pub struct Action {
    pub kind: MenuActionKind,
    pub idle_sprite: Sprite,
    pub hover_sprite: Sprite,
}

impl Action {
    pub open spec fn wf(self) -> bool {
        &&& self.idle_sprite.wf()
        &&& self.idle_sprite.src.w <= SCREEN_BOUND
        &&& self.idle_sprite.src.h <= SCREEN_BOUND
        &&& self.hover_sprite.wf()
        &&& self.hover_sprite.src.w <= SCREEN_BOUND
        &&& self.hover_sprite.src.h <= SCREEN_BOUND
    }

    /// An entry around its pre-rasterized label sprites.
    pub fn new(kind: MenuActionKind, idle_sprite: Sprite, hover_sprite: Sprite) -> (r: Action)
        ensures
            r == (Action { kind, idle_sprite, hover_sprite }),
    {
        Action { kind, idle_sprite, hover_sprite }
    }
}

/// The main menu view.
pub struct MainMenuView {
    pub actions: Vec<Action>,
    pub selected: i8,
    pub backgrounds: Backgrounds,
    pub assets: GameAssets,
}

impl MainMenuView {
    pub open spec fn wf(self) -> bool {
        &&& self.actions@.len() == 2
        &&& self.actions@[0].kind == MenuActionKind::NewGame
        &&& self.actions@[1].kind == MenuActionKind::QuitGame
        &&& self.actions@[0].wf()
        &&& self.actions@[1].wf()
        &&& 0 <= self.selected < 2
        &&& self.backgrounds.wf()
        &&& self.assets.wf()
    }

    /// A freshly constructed menu: the two canonical entries around the
    /// bundle's label sprites, with the first entry selected.
    pub open spec fn is_fresh(self, backgrounds: Backgrounds, assets: GameAssets) -> bool {
        &&& self.actions@ =~= seq![
            Action {
                kind: MenuActionKind::NewGame,
                idle_sprite: assets.menu_new_game_idle,
                hover_sprite: assets.menu_new_game_hover,
            },
            Action {
                kind: MenuActionKind::QuitGame,
                idle_sprite: assets.menu_quit_idle,
                hover_sprite: assets.menu_quit_hover,
            },
        ]
        &&& self.selected == 0
        &&& self.backgrounds == backgrounds
        &&& self.assets == assets
    }

    /// A menu over a fresh canonical backdrop.
    pub fn new(assets: GameAssets) -> (r: MainMenuView)
        requires
            assets.wf(),
        ensures
            r.is_fresh(
                Backgrounds {
                    back: crate::views::shared::Background {
                        pos: 0,
                        vel: 20_000,
                        sprite: assets.star_back,
                    },
                    middle: crate::views::shared::Background {
                        pos: 0,
                        vel: 40_000,
                        sprite: assets.star_middle,
                    },
                    front: crate::views::shared::Background {
                        pos: 0,
                        vel: 80_000,
                        sprite: assets.star_front,
                    },
                },
                assets,
            ),
            r.wf(),
    {
        let bg = Backgrounds::new(assets.star_back, assets.star_middle, assets.star_front);
        MainMenuView::new_with_backgrounds(bg, assets)
    }

    /// A menu that adopts an existing backdrop, so the stars keep scrolling
    /// seamlessly across the transition.
    pub fn new_with_backgrounds(backgrounds: Backgrounds, assets: GameAssets) -> (r:
        MainMenuView)
        requires
            backgrounds.wf(),
            assets.wf(),
        ensures
            r.is_fresh(backgrounds, assets),
            r.wf(),
    {
        MainMenuView {
            actions: vec![
                Action::new(
                    MenuActionKind::NewGame,
                    assets.menu_new_game_idle,
                    assets.menu_new_game_hover,
                ),
                Action::new(
                    MenuActionKind::QuitGame,
                    assets.menu_quit_idle,
                    assets.menu_quit_hover,
                ),
            ],
            selected: 0,
            backgrounds,
            assets,
        }
    }
}

/// The colour of the selection box's border.
pub open spec fn spec_border_color() -> Color {
    Color { r: 70, g: 15, b: 70 }
}

/// The colour of the selection box.
pub open spec fn spec_box_color() -> Color {
    Color { r: 140, g: 30, b: 140 }
}

impl MainMenuView {
    /// Where the player's selection rests after this frame's edges: the
    /// directional keys move it one entry up or down, wrapping around.
    pub open spec fn spec_selected_after(self, now: crate::phi::events::ImmediateEvents) -> int {
        let len = self.actions@.len() as int;
        let s0 = self.selected as int;
        let s1 = if now.key_up == Some(true) {
            if s0 - 1 < 0 {
                len - 1
            } else {
                s0 - 1
            }
        } else {
            s0
        };
        if now.key_down == Some(true) {
            if s1 + 1 >= len {
                0int
            } else {
                s1 + 1
            }
        } else {
            s1
        }
    }

    /// The border behind the coloured box which holds the labels.
    pub open spec fn spec_border_rect(self, win_w: int, win_h: int) -> Rectangle {
        let box_h = self.actions@.len() * 50_000;
        Rectangle {
            w: 366_000,
            h: (box_h + 26_000) as i64,
            x: (spec_div_trunc(win_w - 360_000, 2) - 3_000) as i64,
            y: (spec_div_trunc(win_h - box_h, 2) - 13_000) as i64,
        }
    }

    /// The coloured box which holds the labels.
    pub open spec fn spec_box_rect(self, win_w: int, win_h: int) -> Rectangle {
        let box_h = self.actions@.len() * 50_000;
        Rectangle {
            w: 360_000,
            h: (box_h + 20_000) as i64,
            x: spec_div_trunc(win_w - 360_000, 2) as i64,
            y: (spec_div_trunc(win_h - box_h, 2) - 10_000) as i64,
        }
    }

    /// The label sprite entry `i` shows: hovered when the selection rests on
    /// it, idle otherwise.
    pub open spec fn spec_label_sprite(self, i: int) -> Sprite {
        if self.selected == i {
            self.actions@[i].hover_sprite
        } else {
            self.actions@[i].idle_sprite
        }
    }

    /// Where entry `i`'s label goes: horizontally centred, the entries
    /// stacked down the middle of the box.
    pub open spec fn spec_label_rect(self, i: int, win_w: int, win_h: int) -> Rectangle {
        let sp = self.spec_label_sprite(i);
        let box_h = self.actions@.len() * 50_000;
        Rectangle {
            x: spec_div_trunc(win_w - sp.src.w, 2) as i64,
            y: (spec_div_trunc(win_h - box_h + 50_000 - sp.src.h, 2) + 50_000 * i) as i64,
            w: sp.src.w,
            h: sp.src.h,
        }
    }

    /// The blits that draw the menu's labels, top to bottom.
    pub open spec fn spec_label_commands(self, win_w: int, win_h: int) -> Seq<DrawCommand> {
        Seq::new(
            self.actions@.len(),
            |i: int|
                DrawCommand::CopyRegion {
                    tex: self.spec_label_sprite(i).tex,
                    src: self.spec_label_sprite(i).src,
                    dst: self.spec_label_rect(i, win_w, win_h),
                },
        )
    }

    /// When the menu can accept a frame: well-formed state, a context whose
    /// output is within screen bounds and tall enough for the asteroid a
    /// new game spawns, a bounded elapsed time, and a backdrop whose layers
    /// scale to at least one millipixel per tile.
    pub open spec fn render_req(self, phi: Phi, elapsed: i64) -> bool {
        &&& self.wf()
        &&& phi.wf()
        &&& phi.renderer.out_w <= SCREEN_BOUND
        &&& crate::views::game::ASTEROID_SIDE <= phi.renderer.out_h <= SCREEN_BOUND
        &&& 0 <= elapsed <= crate::views::shared::BG_DT_BOUND
        &&& self.backgrounds.back.sprite.src.w * phi.renderer.out_h
            >= self.backgrounds.back.sprite.src.h
        &&& self.backgrounds.middle.sprite.src.w * phi.renderer.out_h
            >= self.backgrounds.middle.sprite.src.h
        &&& self.backgrounds.front.sprite.src.w * phi.renderer.out_h
            >= self.backgrounds.front.sprite.src.h
    }

    /// What one menu frame does.
    pub open spec fn render_rel(
        self,
        phi: Phi,
        elapsed: i64,
        self2: MainMenuView,
        phi2: Phi,
        r: ViewAction,
    ) -> bool {
        let now = phi.events.now;
        let w = phi.renderer.out_w as int;
        let h = phi.renderer.out_h as int;
        if now.quit || now.key_escape == Some(true) {
            &&& r is Quit
            &&& self2 == self
            &&& phi2 == phi
        } else if now.key_space == Some(true) || now.key_return == Some(true) {
            if self.selected == 0 {
                &&& (r matches ViewAction::ChangeView(v) && (*v matches
                    crate::views::GameView::Ship(sv) && {
                    &&& sv.wf()
                    &&& sv.is_fresh(self.backgrounds, self.assets)
                    &&& sv.asteroid.rect.x == phi.renderer.out_w
                }))
                &&& self2 == self
                &&& phi2 == phi
            } else {
                &&& r is Quit
                &&& self2 == self
                &&& phi2 == phi
            }
        } else {
            &&& r is Continue
            &&& self2.actions == self.actions
            &&& self2.assets == self.assets
            &&& self2.selected as int == self.spec_selected_after(now)
            &&& self2.backgrounds.back == (crate::views::shared::Background {
                pos: self.backgrounds.back.spec_scroll_pos(elapsed) as i64,
                ..self.backgrounds.back
            })
            &&& self2.backgrounds.middle == (crate::views::shared::Background {
                pos: self.backgrounds.middle.spec_scroll_pos(elapsed) as i64,
                ..self.backgrounds.middle
            })
            &&& self2.backgrounds.front == (crate::views::shared::Background {
                pos: self.backgrounds.front.spec_scroll_pos(elapsed) as i64,
                ..self.backgrounds.front
            })
            &&& phi2.events == phi.events
            &&& phi2.cached_fonts == phi.cached_fonts
            &&& phi2.renderer.out_w == phi.renderer.out_w
            &&& phi2.renderer.out_h == phi.renderer.out_h
            &&& phi2.renderer.draw_color == spec_box_color()
            &&& phi2.renderer.commands@ =~= phi.renderer.commands@ + seq![
                DrawCommand::Clear(Color { r: 0, g: 0, b: 0 }),
            ] + self2.backgrounds.back.spec_render_commands(w, h)
                + self2.backgrounds.middle.spec_render_commands(w, h)
                + self2.backgrounds.front.spec_render_commands(w, h) + seq![
                DrawCommand::FillRect(spec_border_color(), self2.spec_border_rect(w, h)),
                DrawCommand::FillRect(spec_box_color(), self2.spec_box_rect(w, h)),
            ] + self2.spec_label_commands(w, h)
        }
    }

    /// One menu frame: react to this frame's edges (quit, execute the
    /// selected entry, move the selection with wraparound), then draw the
    /// backdrop, the selection box and the labels.
    #[verifier::rlimit(60)]
    pub fn render(&mut self, phi: &mut Phi, elapsed: i64) -> (r: ViewAction)
        requires
            old(self).render_req(*old(phi), elapsed),
        ensures
            old(self).render_rel(*old(phi), elapsed, *final(self), *final(phi), r),
            final(self).wf(),
    {
        if phi.events.now.quit {
            return ViewAction::Quit;
        }
        if let Some(true) = phi.events.now.key_escape {
            return ViewAction::Quit;
        }

        // Execute the currently selected entry.
        let fire = match (phi.events.now.key_space, phi.events.now.key_return) {
            (Some(true), _) => true,
            (_, Some(true)) => true,
            _ => false,
        };
        if fire {
            let idx: usize = self.selected as usize;
            match self.actions[idx].kind {
                MenuActionKind::NewGame => {
                    let bg = self.backgrounds;
                    let next = crate::views::game::ShipView::new_with_backgrounds(
                        phi,
                        bg,
                        self.assets,
                    );
                    return ViewAction::ChangeView(
                        Box::new(crate::views::GameView::Ship(next)),
                    );
                },
                MenuActionKind::QuitGame => {
                    return ViewAction::Quit;
                },
            }
        }

        // Move the selection with the directional keys, wrapping around.
        if let Some(true) = phi.events.now.key_up {
            self.selected = self.selected - 1;
            if self.selected < 0 {
                self.selected = (self.actions.len() as i8) - 1;
            }
        }
        if let Some(true) = phi.events.now.key_down {
            self.selected = self.selected + 1;
            if self.selected >= self.actions.len() as i8 {
                self.selected = 0;
            }
        }

        // Clear the screen.
        let ghost c0 = phi.renderer.commands@;
        phi.renderer.set_draw_color(Color { r: 0, g: 0, b: 0 });
        phi.renderer.clear();
        let ghost c1 = phi.renderer.commands@;
        proof {
            assert(c1 =~= c0 + seq![DrawCommand::Clear(Color { r: 0, g: 0, b: 0 })]);
        }

        // Render the backgrounds.
        self.backgrounds.back.render(&mut phi.renderer, elapsed);
        let ghost c2 = phi.renderer.commands@;
        self.backgrounds.middle.render(&mut phi.renderer, elapsed);
        let ghost c3 = phi.renderer.commands@;
        self.backgrounds.front.render(&mut phi.renderer, elapsed);
        let ghost c4 = phi.renderer.commands@;

        let (win_w, win_h) = phi.output_size();
        let box_h = (self.actions.len() as i64) * 50_000;

        // The border of the coloured box which holds the labels.
        phi.renderer.set_draw_color(Color { r: 70, g: 15, b: 70 });
        let border = Rectangle {
            w: 366_000,
            h: box_h + 26_000,
            x: div_trunc(win_w - 360_000, 2) - 3_000,
            y: div_trunc(win_h - box_h, 2) - 13_000,
        };
        phi.renderer.fill_rect(border);

        // The coloured box which holds the labels.
        phi.renderer.set_draw_color(Color { r: 140, g: 30, b: 140 });
        let label_box = Rectangle {
            w: 360_000,
            h: box_h + 20_000,
            x: div_trunc(win_w - 360_000, 2),
            y: div_trunc(win_h - box_h, 2) - 10_000,
        };
        phi.renderer.fill_rect(label_box);

        proof {
            assert(phi.renderer.commands@ =~= c4.push(
                DrawCommand::FillRect(spec_border_color(), self.spec_border_rect(
                    win_w as int,
                    win_h as int,
                )),
            ).push(
                DrawCommand::FillRect(spec_box_color(), self.spec_box_rect(
                    win_w as int,
                    win_h as int,
                )),
            ));
            assert(phi.renderer.commands@ =~= c4 + seq![
                DrawCommand::FillRect(spec_border_color(), self.spec_border_rect(
                    win_w as int,
                    win_h as int,
                )),
                DrawCommand::FillRect(spec_box_color(), self.spec_box_rect(
                    win_w as int,
                    win_h as int,
                )),
            ]);
        }

        // The labels, hovered or idle.
        let ghost base = phi.renderer.commands@;
        let ghost r0 = phi.renderer;
        let n = self.actions.len();
        let mut i: usize = 0;
        while i < n
            invariant
                n == self.actions@.len(),
                i <= n,
                self.wf(),
                box_h == 100_000,
                phi.renderer.out_w == win_w,
                phi.renderer.out_h == win_h,
                -SCREEN_BOUND <= win_w <= SCREEN_BOUND,
                -SCREEN_BOUND <= win_h <= SCREEN_BOUND,
                phi.renderer == (crate::phi::gfx::Renderer {
                    commands: phi.renderer.commands,
                    ..r0
                }),
                phi.events == old(phi).events,
                phi.cached_fonts == old(phi).cached_fonts,
                phi.renderer.commands@ =~= base + self.spec_label_commands(
                    win_w as int,
                    win_h as int,
                ).take(i as int),
            decreases n - i,
        {
            let sel = self.selected as usize == i;
            let action = &self.actions[i];
            let sprite = if sel {
                action.hover_sprite
            } else {
                action.idle_sprite
            };
            let (sw, sh) = sprite.size();
            let dst = Rectangle {
                w: sw,
                h: sh,
                x: div_trunc(win_w - sw, 2),
                y: div_trunc(win_h - box_h + 50_000 - sh, 2) + 50_000 * (i as i64),
            };
            crate::phi::gfx::Renderable::render(&sprite, &mut phi.renderer, dst);
            proof {
                let full = self.spec_label_commands(win_w as int, win_h as int);
                assert(full[i as int] == DrawCommand::CopyRegion {
                    tex: sprite.tex,
                    src: sprite.src,
                    dst,
                });
                assert(full.take(i + 1) =~= full.take(i as int).push(full[i as int]));
            }
            i = i + 1;
        }
        proof {
            let full = self.spec_label_commands(win_w as int, win_h as int);
            assert(full.take(n as int) =~= full);
            let wv = old(phi).renderer.out_w as int;
            let hv = old(phi).renderer.out_h as int;
            assert(phi.renderer.commands@ =~= base + full);
            assert(base =~= c0 + seq![DrawCommand::Clear(Color { r: 0, g: 0, b: 0 })]
                + self.backgrounds.back.spec_render_commands(wv, hv)
                + self.backgrounds.middle.spec_render_commands(wv, hv)
                + self.backgrounds.front.spec_render_commands(wv, hv) + seq![
                DrawCommand::FillRect(spec_border_color(), self.spec_border_rect(wv, hv)),
                DrawCommand::FillRect(spec_box_color(), self.spec_box_rect(wv, hv)),
            ]);
            assert(phi.renderer.commands@ =~= c0 + seq![
                DrawCommand::Clear(Color { r: 0, g: 0, b: 0 }),
            ] + self.backgrounds.back.spec_render_commands(wv, hv)
                + self.backgrounds.middle.spec_render_commands(wv, hv)
                + self.backgrounds.front.spec_render_commands(wv, hv) + seq![
                DrawCommand::FillRect(spec_border_color(), self.spec_border_rect(wv, hv)),
                DrawCommand::FillRect(spec_box_color(), self.spec_box_rect(wv, hv)),
            ] + full);
        }

        ViewAction::Continue
    }
}

} // verus!
