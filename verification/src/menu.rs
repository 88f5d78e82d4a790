//! The start screen and the victory screen: where their buttons are and
//! what a key or a click does.

use vstd::prelude::*;
use crate::consts::{SCREEN_H, SCREEN_W};
use crate::fixed::div_trunc;

verus! {

/// What the start screen asks for.
#[derive(Clone, Copy, PartialEq, Eq, Structural, Debug)]
pub enum MenuAction {
    /// Stay on the start screen
    Stay,
    Start,
}

/// What the victory screen asks for.
#[derive(Clone, Copy, PartialEq, Eq, Structural, Debug)]
pub enum VictoryAction {
    /// Stay on the victory screen
    Stay,
    /// Back to the start screen
    ToMenu,
    /// Play again
    Restart,
}

/// What the player did since the last frame, as far as a screen cares.
#[derive(Clone, Copy)]
pub struct ScreenInput {
    pub mouse_x: i32,
    pub mouse_y: i32,
    pub click: bool,
    pub enter: bool,
    pub space: bool,
    pub key_m: bool,
}

/// Whether a point lies in a rectangle given as left, top, width and
/// height, its edges included.
pub open spec fn inside(rect: (i32, i32, i32, i32), x: int, y: int) -> bool {
    rect.0 <= x <= rect.0 + rect.2 && rect.1 <= y <= rect.1 + rect.3
}

/// Whether a point lies in a rectangle, its edges included.
pub fn contains(rect: (i32, i32, i32, i32), x: i32, y: i32) -> (b: bool)
    ensures
        b == inside(rect, x as int, y as int),
{
    let right: i64 = rect.0 as i64 + rect.2 as i64;
    let bottom: i64 = rect.1 as i64 + rect.3 as i64;
    rect.0 <= x && x as i64 <= right && rect.1 <= y && y as i64 <= bottom
}

/// The start screen.
pub struct Menu {
    pub title: String,
    pub btn_text: String,
    pub btn_size: (i32, i32),
    pub hovered: bool,
}

/// The rectangle of a button of the given size, centred two thirds down
/// the screen.
pub open spec fn centred_button(size: (i32, i32)) -> (i32, i32, i32, i32) {
    (
        div_trunc(SCREEN_W - size.0, 2) as i32,
        (SCREEN_H * 2 / 3 - div_trunc(size.1 as int, 2)) as i32,
        size.0,
        size.1,
    )
}

impl Menu {
    /// The start screen with its title and its one button.
    pub fn new() -> (m: Menu)
        ensures
            m.title@ == "PROYECTO RAYCAST"@,
            m.btn_text@ == "INICIAR"@,
            m.btn_size == (260i32, 64i32),
            !m.hovered,
    {
        Menu {
            title: "PROYECTO RAYCAST".to_owned(),
            btn_text: "INICIAR".to_owned(),
            btn_size: (260, 64),
            hovered: false,
        }
    }

    /// The rectangle of the start button.
    pub fn button_rect(&self) -> (r: (i32, i32, i32, i32))
        ensures
            r == centred_button(self.btn_size),
    {
        let (bw, bh) = self.btn_size;
        let left: i64 = (SCREEN_W as i64 - bw as i64) / 2;
        let top: i64 = (SCREEN_H as i64 * 2 / 3) - (bh as i64 / 2);
        (left as i32, top as i32, bw, bh)
    }

    /// Takes the player's input: the button is lit while the mouse is on
    /// it, and the game starts on a click on the button, or on the enter
    /// key or the space bar.
    pub fn handle_input(&mut self, input: &ScreenInput) -> (action: MenuAction)
        ensures
            final(self).hovered == inside(
                centred_button(old(self).btn_size),
                input.mouse_x as int,
                input.mouse_y as int,
            ),
            final(self).title == old(self).title,
            final(self).btn_text == old(self).btn_text,
            final(self).btn_size == old(self).btn_size,
            action == (if (final(self).hovered && input.click) || input.enter || input.space {
                MenuAction::Start
            } else {
                MenuAction::Stay
            }),
    {
        let rect: (i32, i32, i32, i32) = self.button_rect();
        self.hovered = contains(rect, input.mouse_x, input.mouse_y);
        if self.hovered && input.click {
            return MenuAction::Start;
        }
        if input.enter || input.space {
            return MenuAction::Start;
        }
        MenuAction::Stay
    }
}

/// The screen shown when no enemy is left.
pub struct VictoryScreen {
    pub hovered_menu: bool,
    pub hovered_restart: bool,
    /// Time that the run took
    pub elapsed_secs: i64,
    pub kills: u32,
}

/// The button that leads back to the start screen: left of the centre.
pub open spec fn menu_button() -> (i32, i32, i32, i32) {
    (388i32, 452i32, 240i32, 56i32)
}

/// The button that starts again: right of the centre.
pub open spec fn restart_button() -> (i32, i32, i32, i32) {
    (652i32, 452i32, 240i32, 56i32)
}

impl VictoryScreen {
    pub fn new() -> (v: VictoryScreen)
        ensures
            !v.hovered_menu,
            !v.hovered_restart,
            v.elapsed_secs == 0,
            v.kills == 0,
    {
        VictoryScreen { hovered_menu: false, hovered_restart: false, elapsed_secs: 0, kills: 0 }
    }

    /// Notes the time and the kills of the run; a negative time counts as zero.
    pub fn set_stats(&mut self, elapsed_secs: i64, kills: u32)
        ensures
            final(self).elapsed_secs == (if elapsed_secs < 0 {
                0
            } else {
                elapsed_secs
            }),
            final(self).kills == kills,
            final(self).hovered_menu == old(self).hovered_menu,
            final(self).hovered_restart == old(self).hovered_restart,
    {
        self.elapsed_secs = if elapsed_secs < 0 { 0 } else { elapsed_secs };
        self.kills = kills;
    }

    /// The rectangle of the button that leads back to the start screen.
    pub fn btn_menu_rect(&self) -> (r: (i32, i32, i32, i32))
        ensures
            r == menu_button(),
    {
        let w: i32 = 240;
        let h: i32 = 56;
        ((SCREEN_W / 2) - w - 12, (SCREEN_H * 2 / 3) - h / 2, w, h)
    }

    /// The rectangle of the button that starts again.
    pub fn btn_restart_rect(&self) -> (r: (i32, i32, i32, i32))
        ensures
            r == restart_button(),
    {
        let w: i32 = 240;
        let h: i32 = 56;
        ((SCREEN_W / 2) + 12, (SCREEN_H * 2 / 3) - h / 2, w, h)
    }

    /// Takes the player's input. The enter key starts again and the key M
    /// leads to the start screen; a click does what the button under the
    /// mouse says.
    pub fn handle_input(&mut self, input: &ScreenInput) -> (action: VictoryAction)
        ensures
            final(self).hovered_menu == inside(
                menu_button(),
                input.mouse_x as int,
                input.mouse_y as int,
            ),
            final(self).hovered_restart == inside(
                restart_button(),
                input.mouse_x as int,
                input.mouse_y as int,
            ),
            final(self).elapsed_secs == old(self).elapsed_secs,
            final(self).kills == old(self).kills,
            action == (if input.enter {
                VictoryAction::Restart
            } else if input.key_m {
                VictoryAction::ToMenu
            } else if input.click && final(self).hovered_menu {
                VictoryAction::ToMenu
            } else if input.click && final(self).hovered_restart {
                VictoryAction::Restart
            } else {
                VictoryAction::Stay
            }),
    {
        self.hovered_menu = contains(self.btn_menu_rect(), input.mouse_x, input.mouse_y);
        self.hovered_restart = contains(self.btn_restart_rect(), input.mouse_x, input.mouse_y);
        if input.enter {
            return VictoryAction::Restart;
        }
        if input.key_m {
            return VictoryAction::ToMenu;
        }
        if input.click {
            if self.hovered_menu {
                return VictoryAction::ToMenu;
            }
            if self.hovered_restart {
                return VictoryAction::Restart;
            }
        }
        VictoryAction::Stay
    }
}

} // verus!
