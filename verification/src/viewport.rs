use vstd::prelude::*;

verus! {

/// The terminal's extent, queried once at startup. Both counts are
/// positive and come from 16-bit window-size fields.
#[derive(Clone, Copy, PartialEq, Eq, Structural, Debug)]
pub struct ScreenDims {
    pub rows: usize,
    pub cols: usize,
}

impl ScreenDims {
    pub open spec fn wf(self) -> bool {
        1 <= self.rows <= 0xffff && 1 <= self.cols <= 0xffff
    }

    /// Dimensions as the window-size query reports them. A terminal with
    /// no rows or no columns cannot be rendered to, so both must be
    /// positive.
    pub fn new(rows: u16, cols: u16) -> (d: ScreenDims)
        requires
            rows >= 1,
            cols >= 1,
        ensures
            d.rows == rows,
            d.cols == cols,
            d.wf(),
    {
        ScreenDims { rows: rows as usize, cols: cols as usize }
    }
}

/// The cursor's logical position in the buffer: row and column are
/// buffer-relative, not screen-relative.
#[derive(Clone, Copy, PartialEq, Eq, Structural, Debug)]
pub struct Cursor {
    pub row: usize,
    pub col: usize,
}

/// The buffer coordinate shown at the screen's top-left cell.
#[derive(Clone, Copy, PartialEq, Eq, Structural, Debug)]
pub struct Viewport {
    pub row_offset: usize,
    pub col_offset: usize,
}

/// The minimal-scroll rule on one axis: the offset moves exactly far
/// enough to bring `pos` back into the window of length `extent`, and
/// stays put when `pos` is already visible.
pub open spec fn scroll_offset(off: int, pos: int, extent: int) -> int {
    if pos < off {
        pos
    } else if pos >= off + extent {
        pos - extent + 1
    } else {
        off
    }
}

impl Viewport {
    /// Both offsets zero: the buffer's top-left corner is shown.
    pub fn origin() -> (v: Viewport)
        ensures
            v.row_offset == 0,
            v.col_offset == 0,
    {
        Viewport { row_offset: 0, col_offset: 0 }
    }

    /// Recompute the offsets from the cursor and the screen extent so the
    /// cursor falls inside the visible window on both axes, moving each
    /// offset no further than needed.
    pub fn recompute(&mut self, cursor: Cursor, dims: ScreenDims)
        requires
            dims.wf(),
        ensures
            final(self).row_offset == scroll_offset(
                old(self).row_offset as int,
                cursor.row as int,
                dims.rows as int,
            ),
            final(self).col_offset == scroll_offset(
                old(self).col_offset as int,
                cursor.col as int,
                dims.cols as int,
            ),
            final(self).row_offset <= cursor.row < final(self).row_offset + dims.rows,
            final(self).col_offset <= cursor.col < final(self).col_offset + dims.cols,
    {
        if cursor.row < self.row_offset {
            self.row_offset = cursor.row;
        }
        if cursor.row - self.row_offset >= dims.rows {
            self.row_offset = cursor.row - dims.rows + 1;
        }
        if cursor.col < self.col_offset {
            self.col_offset = cursor.col;
        }
        if cursor.col - self.col_offset >= dims.cols {
            self.col_offset = cursor.col - dims.cols + 1;
        }
    }
}

} // verus!
