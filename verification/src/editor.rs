use vstd::prelude::*;

use crate::buffer::LineBuffer;
use crate::buffer::spec_row_len;
use crate::keys::EditorKey;
use crate::viewport::Cursor;
use crate::viewport::ScreenDims;
use crate::viewport::Viewport;
use crate::viewport::scroll_offset;

verus! {

/// The whole interactive state: screen extent, cursor, scroll offsets and
/// the loaded text. The session loop mutates it once per keystroke.
pub struct EditorState {
    pub dims: ScreenDims,
    pub cursor: Cursor,
    pub viewport: Viewport,
    pub buf: LineBuffer,
}

/// The quit chord: Ctrl-Q, the character of the byte `q` with only its
/// low five bits kept.
pub open spec fn is_quit(key: EditorKey) -> bool {
    key == EditorKey::Other('\x11')
}

impl EditorState {
    /// How many rows the cursor may range over vertically: the larger of
    /// the line count and the screen height.
    pub open spec fn nav_rows(self) -> int {
        if self.buf@.len() >= self.dims.rows {
            self.buf@.len() as int
        } else {
            self.dims.rows as int
        }
    }

    /// The state's invariant: valid dimensions, at least one buffer line,
    /// the column clamped to its line, and the row within the navigable
    /// range (one past its last index at most, where a page jump lands).
    pub open spec fn wf(self) -> bool {
        &&& self.dims.wf()
        &&& self.buf.wf()
        &&& self.cursor.col <= spec_row_len(self.buf@, self.cursor.row as int)
        &&& self.cursor.row <= self.nav_rows()
    }

    /// True when the cursor falls inside the window the offsets describe,
    /// on both axes; this is what a scroll pass establishes.
    pub open spec fn visible(self) -> bool {
        &&& self.viewport.row_offset <= self.cursor.row < self.viewport.row_offset
            + self.dims.rows
        &&& self.viewport.col_offset <= self.cursor.col < self.viewport.col_offset
            + self.dims.cols
    }

    /// A fresh session: empty buffer, cursor at the top-left corner,
    /// nothing scrolled.
    pub fn new(dims: ScreenDims) -> (s: EditorState)
        requires
            dims.wf(),
        ensures
            s.wf(),
            s.dims == dims,
            s.cursor.row == 0,
            s.cursor.col == 0,
            s.viewport.row_offset == 0,
            s.viewport.col_offset == 0,
            s.buf@ == seq![Seq::<char>::empty()],
    {
        EditorState {
            dims,
            cursor: Cursor { row: 0, col: 0 },
            viewport: Viewport::origin(),
            buf: LineBuffer::new(),
        }
    }

    /// Replace the text wholesale, as a successful file load does. The
    /// rest of the state is untouched.
    pub fn set_buffer(&mut self, buf: LineBuffer)
        requires
            old(self).wf(),
            buf.wf(),
            old(self).cursor.row == 0,
            old(self).cursor.col == 0,
        ensures
            final(self).wf(),
            final(self).buf == buf,
            final(self).dims == old(self).dims,
            final(self).cursor == old(self).cursor,
            final(self).viewport == old(self).viewport,
    {
        self.buf = buf;
    }

    /// Where one key sends the cursor, before the final clamp: the
    /// movement rules of the session loop.
    pub open spec fn move_target(self, key: EditorKey) -> (int, int) {
        let row = self.cursor.row as int;
        let col = self.cursor.col as int;
        let b = self.buf@;
        match key {
            EditorKey::ArrowLeft => if col > 0 {
                (row, col - 1)
            } else if row > 0 {
                (row - 1, spec_row_len(b, row - 1))
            } else {
                (row, col)
            },
            EditorKey::ArrowRight => if col < spec_row_len(b, row) {
                (row, col + 1)
            } else if row < self.nav_rows() - 1 {
                (row + 1, 0)
            } else {
                (row, col)
            },
            EditorKey::ArrowUp => if row > 0 {
                (row - 1, col)
            } else {
                (row, col)
            },
            EditorKey::ArrowDown => if row < self.nav_rows() - 1 {
                (row + 1, col)
            } else {
                (row, col)
            },
            EditorKey::PageUp => (0, col),
            EditorKey::PageDown => (self.dims.rows as int, col),
            EditorKey::Home => (row, 0),
            EditorKey::End => (row, self.dims.cols as int),
            EditorKey::Delete => (row, col),
            EditorKey::Other(_) => (row, col),
        }
    }

    /// Where one key leaves the cursor: the movement target with the
    /// column clamped to the (possibly new) line's length.
    pub open spec fn move_result(self, key: EditorKey) -> (int, int) {
        let t = self.move_target(key);
        let lim = spec_row_len(self.buf@, t.0);
        (t.0, if t.1 <= lim {
            t.1
        } else {
            lim
        })
    }

    /// Apply one key's movement rule to the cursor, then clamp the column
    /// to the current line.
    pub fn move_cursor(&mut self, key: EditorKey)
        requires
            old(self).wf(),
        ensures
            final(self).wf(),
            final(self).buf == old(self).buf,
            final(self).dims == old(self).dims,
            final(self).viewport == old(self).viewport,
            final(self).cursor.row == old(self).move_result(key).0,
            final(self).cursor.col == old(self).move_result(key).1,
    {
        match key {
            EditorKey::ArrowLeft => {
                if self.cursor.col > 0 {
                    self.cursor.col = self.cursor.col - 1;
                } else if self.cursor.row > 0 {
                    self.cursor.row = self.cursor.row - 1;
                    self.cursor.col = self.buf.row_len(self.cursor.row);
                }
            },
            EditorKey::ArrowRight => {
                let len = self.buf.row_len(self.cursor.row);
                if self.cursor.col < len {
                    self.cursor.col = self.cursor.col + 1;
                } else {
                    let count = self.buf.line_count();
                    let nav = if count >= self.dims.rows {
                        count
                    } else {
                        self.dims.rows
                    };
                    if self.cursor.row < nav - 1 {
                        self.cursor.row = self.cursor.row + 1;
                        self.cursor.col = 0;
                    }
                }
            },
            EditorKey::ArrowUp => {
                if self.cursor.row > 0 {
                    self.cursor.row = self.cursor.row - 1;
                }
            },
            EditorKey::ArrowDown => {
                let count = self.buf.line_count();
                let nav = if count >= self.dims.rows {
                    count
                } else {
                    self.dims.rows
                };
                if self.cursor.row < nav - 1 {
                    self.cursor.row = self.cursor.row + 1;
                }
            },
            EditorKey::PageUp => {
                self.cursor.row = 0;
            },
            EditorKey::PageDown => {
                self.cursor.row = self.dims.rows;
            },
            EditorKey::Home => {
                self.cursor.col = 0;
            },
            EditorKey::End => {
                self.cursor.col = self.dims.cols;
            },
            EditorKey::Delete => {},
            EditorKey::Other(_) => {},
        }
        let lim = self.buf.row_len(self.cursor.row);
        if self.cursor.col > lim {
            self.cursor.col = lim;
        }
    }

    /// One step of the running session: the quit chord ends it and leaves
    /// the state alone; every other key moves the cursor.
    pub fn process_keypress(&mut self, key: EditorKey) -> (cont: bool)
        requires
            old(self).wf(),
        ensures
            final(self).wf(),
            cont == !is_quit(key),
            is_quit(key) ==> *final(self) == *old(self),
            !is_quit(key) ==> {
                &&& final(self).buf == old(self).buf
                &&& final(self).dims == old(self).dims
                &&& final(self).viewport == old(self).viewport
                &&& final(self).cursor.row == old(self).move_result(key).0
                &&& final(self).cursor.col == old(self).move_result(key).1
            },
    {
        let quit = crate::keys::ctrl_key(0x71);
        proof {
            assert((0x71u8 & 0x1fu8) == 0x11u8) by (bit_vector);
        }
        if let EditorKey::Other(c) = key {
            if c == quit {
                return false;
            }
        }
        self.move_cursor(key);
        true
    }

    /// Bring the cursor back into view, moving each offset only as far as
    /// the minimal-scroll rule demands.
    pub fn scroll(&mut self)
        requires
            old(self).wf(),
        ensures
            final(self).wf(),
            final(self).buf == old(self).buf,
            final(self).dims == old(self).dims,
            final(self).cursor == old(self).cursor,
            final(self).viewport.row_offset == scroll_offset(
                old(self).viewport.row_offset as int,
                old(self).cursor.row as int,
                old(self).dims.rows as int,
            ),
            final(self).viewport.col_offset == scroll_offset(
                old(self).viewport.col_offset as int,
                old(self).cursor.col as int,
                old(self).dims.cols as int,
            ),
            final(self).visible(),
    {
        let cursor = self.cursor;
        let dims = self.dims;
        self.viewport.recompute(cursor, dims);
    }
}

/// The state `s` with its cursor moved to `(row, col)`.
pub open spec fn with_cursor(s: EditorState, row: int, col: int) -> EditorState {
    EditorState { cursor: Cursor { row: row as usize, col: col as usize }, ..s }
}

/// Going left from the start of a line and then right returns exactly to
/// the start of that line: the two wraps are inverses at the boundary.
pub proof fn lemma_wrap_left_then_right(s: EditorState)
    requires
        s.wf(),
        s.cursor.col == 0,
        s.cursor.row > 0,
        s.cursor.row <= s.nav_rows() - 1,
    ensures
        s.move_result(EditorKey::ArrowLeft) == (
            s.cursor.row - 1,
            spec_row_len(s.buf@, s.cursor.row - 1),
        ),
        with_cursor(
            s,
            s.cursor.row - 1,
            spec_row_len(s.buf@, s.cursor.row - 1),
        ).move_result(EditorKey::ArrowRight) == (s.cursor.row as int, 0int),
{
    vstd::std_specs::vec::axiom_spec_len(&s.buf.lines);
    let r = s.cursor.row - 1;
    if 0 <= r < s.buf.lines@.len() {
        assert(s.buf@[r] == s.buf.lines@[r].deep_view());
        vstd::std_specs::vec::axiom_spec_len(&s.buf.lines@[r]);
        assert(s.buf.lines@[r].deep_view().len() == s.buf.lines@[r]@.len());
    }
}

/// Going right from the end of a line and then left returns exactly to
/// the end of that line: the converse direction of the same law.
pub proof fn lemma_wrap_right_then_left(s: EditorState)
    requires
        s.wf(),
        s.cursor.col == spec_row_len(s.buf@, s.cursor.row as int),
        s.cursor.row < s.nav_rows() - 1,
    ensures
        s.move_result(EditorKey::ArrowRight) == (s.cursor.row + 1, 0int),
        with_cursor(s, s.cursor.row + 1, 0).move_result(EditorKey::ArrowLeft) == (
            s.cursor.row as int,
            spec_row_len(s.buf@, s.cursor.row as int),
        ),
{
    vstd::std_specs::vec::axiom_spec_len(&s.buf.lines);
    let r = s.cursor.row as int;
    if 0 <= r < s.buf.lines@.len() {
        assert(s.buf@[r] == s.buf.lines@[r].deep_view());
        vstd::std_specs::vec::axiom_spec_len(&s.buf.lines@[r]);
        assert(s.buf.lines@[r].deep_view().len() == s.buf.lines@[r]@.len());
    }
}

} // verus!
