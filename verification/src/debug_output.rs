//! Console preview of the LED frame, laid out as the strip runs around the screen.
use vstd::prelude::*;

verus! {

/// Console output that draws the strip as a frame of `led_width` by `led_height` cells.
#[derive(Clone, Copy, PartialEq, Eq, Structural)]
pub struct Debug {
    pub led_width: usize,
    pub led_height: usize,
}

/// Which colour goes where on the console frame.
///
/// - `top`: the colours of the top row, left to right
/// - `sides`: for each row between, the colour of the left and of the right cell
/// - `bottom`: the colours of the bottom row, left to right
pub struct DebugLayout {
    pub top: Vec<usize>,
    pub sides: Vec<(usize, usize)>,
    pub bottom: Vec<usize>,
}

impl Debug {
    /// Console output for a strip of `led_width` cells across and `led_height` down.
    pub fn new(led_width: usize, led_height: usize) -> (d: Self)
        ensures
            d.led_width == led_width,
            d.led_height == led_height,
    {
        Self { led_width, led_height }
    }

    /// The colour indices to draw. With `n = 2 * led_width + 2 * led_height` colours
    /// around the screen, the top row shows colours `0..led_width`, row `i` between shows
    /// colour `n - i - 1` on the left and `led_width + i` on the right, and the bottom row
    /// shows colour `n - led_height - 1 - j` in column `j`: every colour appears
    /// once, where the strip puts it (top left to right, right side downward, bottom right
    /// to left, left side upward).
    pub fn layout(&self) -> (l: DebugLayout)
        requires
            2 * self.led_width + 2 * self.led_height <= usize::MAX,
        ensures
            l.top@.len() == self.led_width,
            forall|j: int|
                0 <= j < self.led_width ==> #[trigger] l.top@[j] == cell_colour(
                    self.led_width as nat,
                    self.led_height as nat,
                    Cell::Top(j as nat),
                ),
            l.sides@.len() == self.led_height,
            forall|i: int|
                0 <= i < self.led_height ==> #[trigger] l.sides@[i].0 == cell_colour(
                    self.led_width as nat,
                    self.led_height as nat,
                    Cell::Left(i as nat),
                ) && l.sides@[i].1 == cell_colour(
                    self.led_width as nat,
                    self.led_height as nat,
                    Cell::Right(i as nat),
                ),
            l.bottom@.len() == self.led_width,
            forall|j: int|
                0 <= j < self.led_width ==> #[trigger] l.bottom@[j] == cell_colour(
                    self.led_width as nat,
                    self.led_height as nat,
                    Cell::Bottom(j as nat),
                ),
    {
        let w = self.led_width;
        let h = self.led_height;
        let amount = w * 2 + h * 2;
        let mut top: Vec<usize> = Vec::new();
        let mut idx: usize = 0;
        while idx < w
            invariant
                idx <= w,
                top@.len() == idx,
                forall|j: int| 0 <= j < idx ==> #[trigger] top@[j] == j,
            decreases w - idx,
        {
            top.push(idx);
            idx = idx + 1;
        }
        let mut sides: Vec<(usize, usize)> = Vec::new();
        let mut idx: usize = 0;
        while idx < h
            invariant
                idx <= h,
                amount == 2 * w + 2 * h,
                amount <= usize::MAX,
                sides@.len() == idx,
                forall|i: int|
                    0 <= i < idx ==> #[trigger] sides@[i] == ((amount - i - 1) as usize, (w + i) as usize),
            decreases h - idx,
        {
            sides.push((amount - idx - 1, w + idx));
            idx = idx + 1;
        }
        let mut bottom: Vec<usize> = Vec::new();
        let mut idx: usize = 0;
        while idx < w
            invariant
                idx <= w,
                amount == 2 * w + 2 * h,
                amount <= usize::MAX,
                bottom@.len() == idx,
                forall|j: int| 0 <= j < idx ==> #[trigger] bottom@[j] == (amount - h - 1 - j) as usize,
            decreases w - idx,
        {
            bottom.push(amount - h - 1 - idx);
            idx = idx + 1;
        }
        DebugLayout { top, sides, bottom }
    }
}

/// A cell of the console frame: a column of the top or bottom row, or a row of the
/// right or left side.
pub enum Cell {
    Top(nat),
    Right(nat),
    Bottom(nat),
    Left(nat),
}

/// The cell lies on the frame of `w` by `h`.
pub open spec fn cell_valid(w: nat, h: nat, c: Cell) -> bool {
    match c {
        Cell::Top(j) => j < w,
        Cell::Right(i) => i < h,
        Cell::Bottom(j) => j < w,
        Cell::Left(i) => i < h,
    }
}

/// The colour `layout` draws in the cell.
pub open spec fn cell_colour(w: nat, h: nat, c: Cell) -> int {
    match c {
        Cell::Top(j) => j as int,
        Cell::Right(i) => (w + i) as int,
        Cell::Bottom(j) => 2 * w + 2 * h - h - 1 - j,
        Cell::Left(i) => 2 * w + 2 * h - i - 1,
    }
}

/// Some cell of the frame draws colour `k`.
pub open spec fn drawn(w: nat, h: nat, k: int) -> bool {
    exists|c: Cell| cell_valid(w, h, c) && #[trigger] cell_colour(w, h, c) == k
}

/// The console frame shows every colour of the strip exactly once: each of the
/// `2w + 2h` colours is drawn in some cell, and no two cells draw the same colour.
pub proof fn lemma_layout_shows_each_colour_once(w: nat, h: nat)
    ensures
        forall|k: int|
            0 <= k < 2 * w + 2 * h ==> #[trigger] drawn(w, h, k),
        forall|c1: Cell, c2: Cell|
            cell_valid(w, h, c1) && cell_valid(w, h, c2) && #[trigger] cell_colour(w, h, c1)
                == #[trigger] cell_colour(w, h, c2) ==> c1 == c2,
{
    assert forall|k: int| 0 <= k < 2 * w + 2 * h implies #[trigger] drawn(w, h, k) by {
        if k < w {
            assert(cell_colour(w, h, Cell::Top(k as nat)) == k);
        } else if k < w + h {
            assert(cell_colour(w, h, Cell::Right((k - w) as nat)) == k);
        } else if k < 2 * w + h {
            assert(cell_colour(w, h, Cell::Bottom((2 * w + h - 1 - k) as nat)) == k);
        } else {
            assert(cell_colour(w, h, Cell::Left((2 * w + 2 * h - 1 - k) as nat)) == k);
        }
    }
}

} // verus!
