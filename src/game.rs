use vstd::prelude::*;
use crate::input::{Key, KeySet};
use crate::level_manager::LevelManager;
use crate::play::{frame_step, Play};

verus! {

/// The menu screen.
#[derive(Clone, Copy, Debug, PartialEq, Eq, Structural)]
pub struct Menu {
    pub touched: bool,
}

impl Menu {
    pub fn new() -> (r: Menu)
        ensures
            r.touched,
    {
        Menu { touched: true }
    }
}

/// Which screen the game is on.
#[derive(Clone, Copy, Debug, PartialEq, Eq, Structural)]
pub enum GameMode {
    Menu,
    Playing,
    End,
}

/// What the shell draws after a frame.
#[derive(Clone, Copy, Debug, PartialEq, Eq, Structural)]
pub enum Screen {
    /// Nothing: the frame only left the menu.
    Blank,
    /// The menu.
    Menu,
    /// The level and its entities.
    Play,
}

/// The mode and the screen after one frame with the held keys: P leaves the
/// menu (drawing nothing that frame); while playing, M goes back to the menu
/// and the frame is still played and drawn.
pub open spec fn mode_after(mode: GameMode, keys: Set<Key>) -> (GameMode, Screen) {
    match mode {
        GameMode::Menu => if keys.contains(Key::P) {
            (GameMode::Playing, Screen::Blank)
        } else {
            (GameMode::Menu, Screen::Menu)
        },
        _ => if keys.contains(Key::M) {
            (GameMode::Menu, Screen::Play)
        } else {
            (GameMode::Playing, Screen::Play)
        },
    }
}

/// The whole game: its mode, the playing state and the menu.
pub struct MyGame {
    pub mode: GameMode,
    pub play: Play,
    pub menu: Menu,
}

impl MyGame {
    /// A game that starts playing in the level of `level_manager`.
    pub fn new(level_manager: LevelManager) -> (r: MyGame)
        requires
            level_manager.wf(),
        ensures
            r.play.wf(),
            r.mode == GameMode::Playing,
            r.play.level_manager()@ == level_manager@,
            r.play.ecs()@ == seq![crate::config::initial_player()],
    {
        MyGame { mode: GameMode::Playing, play: Play::new(level_manager), menu: Menu::new() }
    }

    /// Runs one frame: switches mode on P and M, and advances play while
    /// playing. Returns what to draw.
    pub fn run(&mut self, keys: &KeySet) -> (r: Screen)
        requires
            old(self).play.wf(),
            old(self).mode != GameMode::End,
        ensures
            final(self).play.wf(),
            (final(self).mode, r) == mode_after(old(self).mode, keys@),
            final(self).menu == old(self).menu,
            final(self).play.level_manager()@ == old(self).play.level_manager()@,
            r == Screen::Play ==> {
                &&& final(self).play.ecs()@.len() == old(self).play.ecs()@.len()
                &&& forall|i: int| 0 <= i < old(self).play.ecs()@.len() ==>
                    final(self).play.ecs()@[i] == frame_step(old(self).play.level_manager()@, keys@, #[trigger] old(self).play.ecs()@[i])
            },
            r != Screen::Play ==> final(self).play == old(self).play,
    {
        match self.mode {
            GameMode::Menu => {
                if keys.contains(Key::P) {
                    self.mode = GameMode::Playing;
                    Screen::Blank
                } else {
                    Screen::Menu
                }
            },
            _ => {
                if keys.contains(Key::M) {
                    self.mode = GameMode::Menu;
                } else {
                    self.mode = GameMode::Playing;
                }
                self.play.update(keys);
                Screen::Play
            },
        }
    }
}

} // verus!
