use crate::geometry::Line2d;
use crate::screens::menu::Menu;
use crate::screens::play::{Play, PlayView};
use vstd::prelude::*;

pub mod game_over;
pub mod menu;
pub mod play;
pub mod transition;

verus! {

/// The screens of the game; exactly one is active at a time.
#[derive(Clone, Copy, Debug, PartialEq, Eq, Structural)]
pub enum Screen {
    Menu,
    Play,
    GameOver,
    Quit,
}

/// What the set of screens holds.
pub struct ScreensView {
    pub menu: Menu,
    pub play: PlayView,
}

/// The screens that have a behaviour of their own.
#[derive(Clone, Debug, PartialEq, Eq)]
pub struct Screens {
    pub menu: Menu,
    pub play: Play,
}

impl View for Screens {
    type V = ScreensView;

    open spec fn view(&self) -> ScreensView {
        ScreensView { menu: self.menu, play: self.play@ }
    }
}

impl Screens {
    /// Makes the menu and the play screen, the latter inside `frame`.
    pub fn init(frame: [Line2d; 5]) -> (s: Screens)
        ensures
            s@ == (ScreensView {
                menu: Menu { render_score: false, score: 0 },
                play: PlayView::initial(frame),
            }),
            s.play.wf(),
    {
        Screens { menu: Menu::init(), play: Play::init(frame) }
    }
}

} // verus!
