use crate::common::Input;
use crate::screens::Screen;
use vstd::prelude::*;

verus! {

/// The screen after a game. Nothing leads to it yet; it only knows how to
/// be left.
#[derive(Clone, Copy, Debug, PartialEq, Eq, Structural)]
pub struct GameOver {
}

impl GameOver {
    /// Makes the screen; it has nothing to hold.
    pub fn init() -> (g: GameOver)
        ensures
            g == (GameOver {  }),
    {
        GameOver {  }
    }

    /// Asks for the quit screen when the escape key went down.
    pub fn update(&mut self, input: &Input) -> (next: Option<Screen>)
        ensures
            next == (if input.escape.pressed {
                Some(Screen::Quit)
            } else {
                None
            }),
    {
        if input.escape.pressed {
            Some(Screen::Quit)
        } else {
            None
        }
    }
}

} // verus!
