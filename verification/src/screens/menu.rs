use crate::common::Input;
use crate::screens::Screen;
use vstd::prelude::*;

verus! {

/// The menu screen.
#[derive(Clone, Copy, Debug, PartialEq, Eq, Structural)]
pub struct Menu {
    /// Whether the score of the last game is shown.
    pub render_score: bool,
    /// The score to show.
    pub score: usize,
}

impl Menu {
    /// The screen that a frame of `input` on the menu asks for: the play
    /// screen while the confirm key is held, else the quit screen when the
    /// escape key went down.
    pub open spec fn chosen(input: Input) -> Option<Screen> {
        if input.enter.down {
            Some(Screen::Play)
        } else if input.escape.pressed {
            Some(Screen::Quit)
        } else {
            None
        }
    }

    pub fn init() -> (m: Menu)
        ensures
            m == (Menu { render_score: false, score: 0 }),
    {
        Menu { render_score: false, score: 0 }
    }

    pub fn update(&mut self, input: &Input) -> (next: Option<Screen>)
        ensures
            *final(self) == *old(self),
            next == Menu::chosen(*input),
    {
        if input.enter.down {
            return Some(Screen::Play);
        }
        if input.escape.pressed {
            return Some(Screen::Quit);
        }
        None
    }

    /// Has the menu show `score` from now on.
    pub fn prepare_render_score(&mut self, score: usize)
        ensures
            *final(self) == (Menu { render_score: true, score }),
    {
        self.render_score = true;
        self.score = score;
    }
}

} // verus!
