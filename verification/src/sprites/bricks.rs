use crate::common::{
    BRICK_COLS, BRICK_COUNT, BRICK_HEIGHT, BRICK_MARGIN, BRICK_ROWS, FRAME_OFFSET, HEADING_SIZE,
    UNIT, WIDTH,
};
use crate::geometry::{Contacts, Rectangle, Vx2};
use vstd::prelude::*;

verus! {

#[derive(Clone, Copy, Debug, PartialEq, Eq, Structural)]
pub enum BrickState {
    /// In play: collides and is drawn.
    Alive,
    /// Struck in this frame and not yet removed.
    Hit,
    /// Removed from play.
    Dead,
}

/// A colour by its red, green, blue and alpha parts.
#[derive(Clone, Copy, Debug, PartialEq, Eq, Structural)]
pub struct Color {
    pub r: u8,
    pub g: u8,
    pub b: u8,
    pub a: u8,
}

#[derive(Clone, Copy, Debug, PartialEq, Eq, Structural)]
pub struct Brick {
    pub rect: Rectangle,
    pub color: Color,
    pub state: BrickState,
}

impl Brick {
    pub fn is_alive(&self) -> (b: bool)
        ensures
            b == (self.state == BrickState::Alive),
    {
        match self.state {
            BrickState::Alive => true,
            _ => false,
        }
    }
}

/// Width of one brick: the frame's inner width, less one unit of slack at
/// each side and every brick's two margins, shared among the columns.
pub open spec fn cell_width() -> int {
    (WIDTH - FRAME_OFFSET * 2 - 2 * UNIT - BRICK_COLS * 2 * BRICK_MARGIN) / BRICK_COLS as int
}

/// The colour of a row: rows share one in pairs, the rows past the sixth
/// share the last.
pub open spec fn row_color(row: int) -> Color {
    if row == 0 || row == 1 {
        Color { r: 0xDA, g: 0x2A, b: 0x47, a: 0xFF }
    } else if row == 2 || row == 3 {
        Color { r: 0xB4, g: 0x4A, b: 0x5F, a: 0xFF }
    } else if row == 4 || row == 5 {
        Color { r: 0x8E, g: 0x6F, b: 0x77, a: 0xFF }
    } else {
        Color { r: 0x04, g: 0x8C, b: 0x7F, a: 0xFF }
    }
}

/// The rectangle of the brick at `row` and `col`. The grid starts below
/// the heading, one unit inside the frame; bricks follow each other at
/// their extent plus a margin on either side.
pub open spec fn cell_rect(row: int, col: int) -> Rectangle {
    Rectangle {
        pos: Vx2 {
            x: (FRAME_OFFSET + UNIT + BRICK_MARGIN + cell_width() / 2 + col * (cell_width() + 2
                * BRICK_MARGIN)) as i32,
            y: (HEADING_SIZE + FRAME_OFFSET + UNIT + BRICK_HEIGHT / 2 + row * (BRICK_HEIGHT + 2
                * BRICK_MARGIN)) as i32,
        },
        size: Vx2 { x: cell_width() as i32, y: BRICK_HEIGHT },
    }
}

/// The brick at index `i` of a fresh grid; indices run along the rows.
pub open spec fn fresh_brick(i: int) -> Brick {
    Brick {
        rect: cell_rect(i / BRICK_COLS as int, i % BRICK_COLS as int),
        color: row_color(i / BRICK_COLS as int),
        state: BrickState::Alive,
    }
}

pub fn brick_width() -> (w: i32)
    ensures
        w == cell_width(),
        w == 49_571_428,
{
    (WIDTH - FRAME_OFFSET * 2 - 2 * UNIT - (BRICK_COLS as i32) * 2 * BRICK_MARGIN) / (
    BRICK_COLS as i32)
}

pub fn brick_color(row: usize) -> (c: Color)
    ensures
        c == row_color(row as int),
{
    match row {
        0 | 1 => Color { r: 0xDA, g: 0x2A, b: 0x47, a: 0xFF },
        2 | 3 => Color { r: 0xB4, g: 0x4A, b: 0x5F, a: 0xFF },
        4 | 5 => Color { r: 0x8E, g: 0x6F, b: 0x77, a: 0xFF },
        _ => Color { r: 0x04, g: 0x8C, b: 0x7F, a: 0xFF },
    }
}

/// What a brick grid holds: its cells in row-major order, and the index of
/// the brick that the last scan found struck, until it is read.
pub struct BricksView {
    pub cells: Seq<Brick>,
    pub hit: Option<usize>,
}

impl BricksView {
    /// The grid as laid out: every brick alive at its place, no hit
    /// pending.
    pub open spec fn fresh() -> BricksView {
        BricksView { cells: Seq::new(BRICK_COUNT as nat, |i: int| fresh_brick(i)), hit: None }
    }

    /// The grid has all its cells, each with the rectangle and colour of
    /// its place; a pending hit names a cell.
    pub open spec fn wf(self) -> bool {
        &&& self.cells.len() == BRICK_COUNT
        &&& forall|i: int|
            0 <= i < BRICK_COUNT ==> (#[trigger] self.cells[i]).rect == fresh_brick(i).rect
                && self.cells[i].color == fresh_brick(i).color
        &&& self.hit matches Some(h) ==> h < BRICK_COUNT
    }

    /// Brick `i` is struck when it is alive and the ball touches it.
    pub open spec fn struck(self, contacts: Seq<Option<Contacts>>, i: int) -> bool {
        self.cells[i].state == BrickState::Alive && contacts[i] is Some
    }

    /// The first struck brick at or after index `from`, scanning along the
    /// rows.
    pub open spec fn first_struck(self, contacts: Seq<Option<Contacts>>, from: int) -> Option<
        int,
    >
        decreases BRICK_COUNT - from,
    {
        if from < 0 || from >= BRICK_COUNT {
            None
        } else if self.struck(contacts, from) {
            Some(from)
        } else {
            self.first_struck(contacts, from + 1)
        }
    }

    /// The grid after a scan for the ball's `contacts`: the first struck
    /// brick is marked as hit and becomes the pending hit.
    pub open spec fn scanned(self, contacts: Seq<Option<Contacts>>) -> BricksView {
        match self.first_struck(contacts, 0) {
            Some(i) => BricksView {
                cells: self.cells.update(i, Brick { state: BrickState::Hit, ..self.cells[i] }),
                hit: Some(i as usize),
            },
            None => self,
        }
    }

    /// The grid once the pending hit, if any, is removed from play.
    pub open spec fn applied(self) -> BricksView {
        match self.hit {
            Some(h) => BricksView {
                cells: self.cells.update(
                    h as int,
                    Brick { state: BrickState::Dead, ..self.cells[h as int] },
                ),
                ..self
            },
            None => self,
        }
    }

    /// The row of the pending hit.
    pub open spec fn hit_row(self) -> Option<usize> {
        match self.hit {
            Some(h) => Some((h / BRICK_COLS) as usize),
            None => None,
        }
    }

    /// The grid with every brick alive again and no hit pending.
    pub open spec fn revived(self) -> BricksView {
        BricksView {
            cells: Seq::new(
                self.cells.len(),
                |i: int| Brick { state: BrickState::Alive, ..self.cells[i] },
            ),
            hit: None,
        }
    }

    /// How many bricks are dead.
    pub open spec fn dead_count(self) -> int {
        dead_among(self.cells, BRICK_COUNT as int)
    }
}

/// How many of the first `n` of `cells` are dead.
pub open spec fn dead_among(cells: Seq<Brick>, n: int) -> int
    decreases n,
{
    if n <= 0 {
        0
    } else {
        dead_among(cells, n - 1) + dead(cells[n - 1])
    }
}

/// The brick grid.
#[derive(Clone, Debug, PartialEq, Eq)]
pub struct Bricks {
    pub bricks: [Brick; BRICK_COUNT],
    pub hit: Option<usize>,
}

impl View for Bricks {
    type V = BricksView;

    open spec fn view(&self) -> BricksView {
        BricksView { cells: self.bricks@, hit: self.hit }
    }
}

impl Bricks {
    pub open spec fn wf(self) -> bool {
        self@.wf()
    }

    /// Lays out the grid: every brick alive at its place, no hit pending.
    pub fn init() -> (g: Bricks)
        ensures
            g@ == BricksView::fresh(),
            g.wf(),
    {
        let width: i32 = brick_width();
        let height: i32 = BRICK_HEIGHT;
        let start_x: i32 = FRAME_OFFSET + UNIT + BRICK_MARGIN + width / 2;
        let start_y: i32 = HEADING_SIZE + FRAME_OFFSET + UNIT + height / 2;
        let x_offset: i32 = width + 2 * BRICK_MARGIN;
        let y_offset: i32 = height + 2 * BRICK_MARGIN;
        let blank = Brick {
            rect: Rectangle::new(Vx2::new(0, 0), Vx2::new(0, 0)),
            color: brick_color(0),
            state: BrickState::Alive,
        };
        let mut bricks: [Brick; BRICK_COUNT] = [blank;BRICK_COUNT];
        let mut row: usize = 0;
        let mut y: i32 = start_y;
        while row < BRICK_ROWS
            invariant
                row <= BRICK_ROWS,
                width == 49_571_428,
                height == 28_000_000,
                start_x == 31_785_714,
                x_offset == 53_571_428,
                y_offset == 32_000_000,
                y == 69_000_000 + row * 32_000_000,
                forall|i: int| 0 <= i < row * BRICK_COLS ==> bricks[i] == fresh_brick(i),
            decreases BRICK_ROWS - row,
        {
            let c = brick_color(row);
            let mut col: usize = 0;
            let mut x: i32 = start_x;
            while col < BRICK_COLS
                invariant
                    row < BRICK_ROWS,
                    col <= BRICK_COLS,
                    width == 49_571_428,
                    height == 28_000_000,
                    x_offset == 53_571_428,
                    y == 69_000_000 + row * 32_000_000,
                    x == 31_785_714 + col * 53_571_428,
                    c == row_color(row as int),
                    forall|i: int|
                        0 <= i < row * BRICK_COLS + col ==> bricks[i] == fresh_brick(i),
                decreases BRICK_COLS - col,
            {
                let i: usize = row * BRICK_COLS + col;
                assert(i / BRICK_COLS == row && i % BRICK_COLS == col);
                bricks[i] = Brick {
                    rect: Rectangle::new(Vx2::new(x, y), Vx2::new(width, height)),
                    color: c,
                    state: BrickState::Alive,
                };
                x = x + x_offset;
                col = col + 1;
            }
            y = y + y_offset;
            row = row + 1;
        }
        let g = Bricks { bricks, hit: None };
        assert(g@.cells =~= BricksView::fresh().cells);
        g
    }

    /// Hands out the row of the pending hit and clears it.
    pub fn get_hit(&mut self) -> (row: Option<usize>)
        requires
            old(self).wf(),
        ensures
            row == old(self)@.hit_row(),
            row matches Some(r) ==> r < BRICK_ROWS,
            final(self)@ == (BricksView { hit: None, ..old(self)@ }),
            final(self).wf(),
    {
        let ret = match self.hit {
            Some(h) => Some(h / BRICK_COLS),
            None => None,
        };
        self.hit = None;
        ret
    }

    /// Scans the grid in row-major order for the first living brick that
    /// the ball touches, `contacts[i]` being the ball's contact with brick
    /// `i`. That brick is marked as hit and becomes the pending hit, and
    /// its contact is returned.
    pub fn ball_hits(&mut self, contacts: &[Option<Contacts>; BRICK_COUNT]) -> (found: Option<
        Contacts,
    >)
        ensures
            final(self)@ == old(self)@.scanned(contacts@),
            match old(self)@.first_struck(contacts@, 0) {
                Some(i) => found is Some && found == contacts@[i] && 0 <= i < BRICK_COUNT,
                None => found is None,
            },
            old(self).wf() ==> final(self).wf(),
    {
        proof {
            lemma_first_struck_is_least(self@, contacts@, 0);
        }
        let mut i: usize = 0;
        while i < BRICK_COUNT
            invariant
                i <= BRICK_COUNT,
                *self == *old(self),
                self@.first_struck(contacts@, 0) == self@.first_struck(contacts@, i as int),
            decreases BRICK_COUNT - i,
        {
            if let Some(coll_data) = contacts[i] {
                if self.bricks[i].is_alive() {
                    let b = self.bricks[i];
                    self.bricks[i] = Brick {
                        rect: b.rect,
                        color: b.color,
                        state: BrickState::Hit,
                    };
                    self.hit = Some(i);
                    assert(self@.cells =~= old(self)@.scanned(contacts@).cells);
                    return Some(coll_data);
                }
            }
            i = i + 1;
        }
        None
    }

    /// Removes the pending hit, if any, from play.
    pub fn update(&mut self)
        requires
            old(self).wf(),
        ensures
            final(self)@ == old(self)@.applied(),
            final(self).wf(),
    {
        if let Some(hit) = self.hit {
            let b = self.bricks[hit];
            self.bricks[hit] = Brick { rect: b.rect, color: b.color, state: BrickState::Dead };
            assert(self@.cells =~= old(self)@.applied().cells);
        }
    }

    /// Brings every brick back to life and forgets the pending hit.
    pub fn reset(&mut self)
        ensures
            final(self)@ == old(self)@.revived(),
            old(self).wf() ==> final(self).wf(),
    {
        self.hit = None;
        let mut i: usize = 0;
        while i < BRICK_COUNT
            invariant
                i <= BRICK_COUNT,
                self.hit is None,
                forall|k: int|
                    0 <= k < i ==> self.bricks[k] == (Brick {
                        state: BrickState::Alive,
                        ..old(self).bricks[k]
                    }),
                forall|k: int| i <= k < BRICK_COUNT ==> self.bricks[k] == old(self).bricks[k],
            decreases BRICK_COUNT - i,
        {
            let b = self.bricks[i];
            self.bricks[i] = Brick { rect: b.rect, color: b.color, state: BrickState::Alive };
            i = i + 1;
        }
        assert(self@.cells =~= old(self)@.revived().cells);
    }
}

/// The scan is first-match: it yields index `i` exactly when brick `i` is
/// struck and none of the bricks from `from` up to it is; it yields
/// nothing exactly when no brick from `from` on is struck. A dead brick is
/// never struck, so the scan never yields one.
pub proof fn lemma_first_struck_is_least(g: BricksView, contacts: Seq<Option<Contacts>>, from: int)
    requires
        0 <= from,
    ensures
        match g.first_struck(contacts, from) {
            Some(i) => from <= i < BRICK_COUNT && g.struck(contacts, i)
                && g.cells[i].state == BrickState::Alive && forall|j: int|
                from <= j < i ==> !g.struck(contacts, j),
            None => forall|j: int| from <= j < BRICK_COUNT ==> !g.struck(contacts, j),
        },
    decreases BRICK_COUNT - from,
{
    if from < BRICK_COUNT && !g.struck(contacts, from) {
        lemma_first_struck_is_least(g, contacts, from + 1);
    }
}

/// No more bricks are dead than there are.
pub proof fn lemma_dead_among_bounds(cells: Seq<Brick>, n: int)
    requires
        0 <= n,
    ensures
        0 <= dead_among(cells, n) <= n,
    decreases n,
{
    if n > 0 {
        lemma_dead_among_bounds(cells, n - 1);
    }
}

/// One if the brick is dead, else nothing.
pub open spec fn dead(b: Brick) -> int {
    if b.state == BrickState::Dead {
        1
    } else {
        0
    }
}

/// Putting brick `b` in place `h` changes the number of dead bricks by
/// what `b` adds and what the brick before it took along.
pub proof fn lemma_dead_after_update(cells: Seq<Brick>, h: int, b: Brick, n: int)
    requires
        0 <= h < cells.len(),
        0 <= n <= cells.len(),
    ensures
        dead_among(cells.update(h, b), n) == dead_among(cells, n) + if h < n {
            dead(b) - dead(cells[h])
        } else {
            0
        },
    decreases n,
{
    if n > 0 {
        lemma_dead_after_update(cells, h, b, n - 1);
    }
}

/// A revived grid has no dead brick.
pub proof fn lemma_dead_after_revival(g: BricksView, n: int)
    requires
        0 <= n <= g.cells.len(),
    ensures
        dead_among(g.revived().cells, n) == 0,
    decreases n,
{
    if n > 0 {
        lemma_dead_after_revival(g, n - 1);
    }
}

/// A fresh grid has no dead brick.
pub proof fn lemma_dead_when_fresh(n: int)
    requires
        0 <= n <= BRICK_COUNT,
    ensures
        dead_among(BricksView::fresh().cells, n) == 0,
    decreases n,
{
    if n > 0 {
        lemma_dead_when_fresh(n - 1);
    }
}

} // verus!
