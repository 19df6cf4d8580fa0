use vstd::prelude::*;
use vstd::string::StrSliceExecFns;

use crate::buffer::buf_is_empty;
use crate::buffer::spaces;
use crate::editor::EditorState;

verus! {

/// The welcome banner shown on an empty buffer.
pub open spec fn welcome_text() -> Seq<char> {
    "Kilo editor -- version 0.0.1"@
}

/// Erase-in-line, written at the start of every screen row.
pub open spec fn erase_line_seq() -> Seq<char> {
    seq!['\x1b', '[', 'K']
}

/// Hide the terminal cursor while the screen is repainted.
pub open spec fn hide_cursor_seq() -> Seq<char> {
    seq!['\x1b', '[', '?', '2', '5', 'l']
}

/// Show the terminal cursor again once the repaint is done.
pub open spec fn show_cursor_seq() -> Seq<char> {
    seq!['\x1b', '[', '?', '2', '5', 'h']
}

/// Move the terminal cursor to the top-left corner.
pub open spec fn cursor_home_seq() -> Seq<char> {
    seq!['\x1b', '[', 'H']
}

/// The decimal digit character for `d`.
pub open spec fn digit_char(d: nat) -> char {
    ((0x30 + d % 10) as u8) as char
}

/// The decimal digits of `n`, most significant first, no leading zeros.
pub open spec fn dec_digits(n: nat) -> Seq<char>
    decreases n,
{
    if n < 10 {
        seq![digit_char(n)]
    } else {
        dec_digits(n / 10).push(digit_char(n % 10))
    }
}

/// Position the terminal cursor at 1-indexed screen coordinates.
pub open spec fn cursor_position_seq(row1: nat, col1: nat) -> Seq<char> {
    seq!['\x1b', '['] + dec_digits(row1) + seq![';'] + dec_digits(col1) + seq!['H']
}

/// The welcome row: the banner truncated to the screen width and
/// horizontally centered, the line-start marker occupying the leftmost
/// padding cell when there is any padding.
pub open spec fn banner_row(cols: int) -> Seq<char> {
    let msg = if welcome_text().len() > cols {
        welcome_text().take(cols)
    } else {
        welcome_text()
    };
    let padding = (cols - msg.len()) / 2;
    if padding > 0 {
        seq!['~'] + spaces((padding - 1) as nat) + msg
    } else {
        msg
    }
}

/// The visible text of screen row `y`: a slice of the buffer line that
/// the scroll offsets select, or a line-start marker past the end of the
/// buffer, or the welcome banner a third of the way down an empty screen.
pub open spec fn row_text(s: EditorState, y: int) -> Seq<char> {
    let b = s.buf@;
    let file_row = y + s.viewport.row_offset;
    if buf_is_empty(b) || file_row >= b.len() {
        if buf_is_empty(b) && y == s.dims.rows as int / 3 {
            banner_row(s.dims.cols as int)
        } else {
            seq!['~']
        }
    } else {
        let l = b[file_row];
        let from = if s.viewport.col_offset < l.len() {
            s.viewport.col_offset as int
        } else {
            l.len() as int
        };
        let width = if l.len() - from < s.dims.cols {
            l.len() - from
        } else {
            s.dims.cols as int
        };
        l.subrange(from, from + width)
    }
}

/// The row separator: after every screen row but the last.
pub open spec fn row_sep(s: EditorState, y: int) -> Seq<char> {
    if y < s.dims.rows - 1 {
        seq!['\r', '\n']
    } else {
        Seq::<char>::empty()
    }
}

/// Everything drawn for screen rows `y` and below: erase the row, its
/// text, its separator, then the rest.
pub open spec fn rows_from(s: EditorState, y: int) -> Seq<char>
    decreases s.dims.rows - y,
{
    if y >= s.dims.rows {
        Seq::<char>::empty()
    } else {
        erase_line_seq() + row_text(s, y) + row_sep(s, y) + rows_from(s, y + 1)
    }
}

/// The whole refresh: hide the cursor, go home, repaint every row, place
/// the cursor at its screen position, show it again.
pub open spec fn render_spec(s: EditorState) -> Seq<char> {
    hide_cursor_seq() + cursor_home_seq() + rows_from(s, 0) + cursor_position_seq(
        (s.cursor.row - s.viewport.row_offset + 1) as nat,
        (s.cursor.col - s.viewport.col_offset + 1) as nat,
    ) + show_cursor_seq()
}

/// The text of each of the screen's rows, top to bottom.
pub open spec fn screen_row_texts(s: EditorState) -> Seq<Seq<char>> {
    Seq::new(s.dims.rows as nat, |y: int| row_text(s, y))
}

/// The centered banner never exceeds the screen width.
pub proof fn lemma_banner_fits(cols: int)
    requires
        cols >= 1,
    ensures
        banner_row(cols).len() <= cols,
{
    reveal_strlit("Kilo editor -- version 0.0.1");
    let w = welcome_text();
    assert(w.len() == 28);
    let msg = if w.len() > cols {
        w.take(cols)
    } else {
        w
    };
    assert(msg.len() <= cols);
    let padding = (cols - msg.len()) / 2;
    if padding > 0 {
        assert(banner_row(cols).len() == 1 + (padding - 1) + msg.len());
        assert(padding <= cols - msg.len());
    }
}

/// An empty buffer paints exactly one text per screen row, and each is
/// the line-start marker, except the banner a third of the way down; the
/// banner fits the screen width.
pub proof fn lemma_empty_screen(s: EditorState)
    requires
        s.wf(),
        buf_is_empty(s.buf@),
    ensures
        screen_row_texts(s).len() == s.dims.rows,
        forall|y: int|
            0 <= y < s.dims.rows ==> screen_row_texts(s)[y] == (if y == s.dims.rows as int / 3 {
                banner_row(s.dims.cols as int)
            } else {
                seq!['~']
            }),
        banner_row(s.dims.cols as int).len() <= s.dims.cols,
{
    lemma_banner_fits(s.dims.cols as int);
}

/// Append the decimal digits of `n`.
fn push_decimal(out: &mut Vec<char>, n: usize)
    ensures
        final(out)@ == old(out)@ + dec_digits(n as nat),
    decreases n,
{
    if n >= 10 {
        push_decimal(out, n / 10);
    }
    let d = (n % 10) as u8;
    out.push((0x30 + d) as char);
    proof {
        assert((0x30 + d) as char == digit_char(n as nat % 10));
        if n < 10 {
            assert(dec_digits(n as nat) =~= seq![digit_char(n as nat)]);
            assert(n as nat % 10 == n as nat);
            assert(out@ =~= old(out)@ + dec_digits(n as nat));
        } else {
            assert(dec_digits(n as nat) =~= dec_digits(n as nat / 10).push(
                digit_char(n as nat % 10),
            ));
            assert(out@ =~= old(out)@ + dec_digits(n as nat));
        }
    }
}

/// Append the welcome row for a screen `cols` columns wide.
fn push_banner(out: &mut Vec<char>, cols: usize)
    requires
        cols >= 1,
    ensures
        final(out)@ == old(out)@ + banner_row(cols as int),
    decreases cols,
{
    let msg = "Kilo editor -- version 0.0.1";
    proof {
        reveal_strlit("Kilo editor -- version 0.0.1");
        assert(msg@ == welcome_text());
        assert(msg@.len() == 28);
    }
    let msg_len = msg.unicode_len();
    let shown = if msg_len > cols {
        cols
    } else {
        msg_len
    };
    let ghost msg_spec = if welcome_text().len() > cols {
        welcome_text().take(cols as int)
    } else {
        welcome_text()
    };
    proof {
        assert(msg_spec.len() == shown);
        assert(forall|i: int| 0 <= i < shown ==> msg_spec[i] == msg@[i]);
    }
    let padding = (cols - shown) / 2;
    let ghost head = if padding > 0 {
        seq!['~'] + spaces((padding - 1) as nat)
    } else {
        Seq::<char>::empty()
    };
    if padding > 0 {
        out.push('~');
        let mut p: usize = 0;
        while p < padding - 1
            invariant
                p <= padding - 1,
                out@ =~= old(out)@ + seq!['~'] + spaces(p as nat),
            decreases padding - 1 - p,
        {
            out.push(' ');
            proof {
                assert(spaces((p + 1) as nat) =~= spaces(p as nat) + seq![' ']);
            }
            p = p + 1;
        }
    }
    proof {
        assert(out@ =~= old(out)@ + head);
    }
    let mut i: usize = 0;
    while i < shown
        invariant
            i <= shown,
            shown == msg_spec.len(),
            shown <= msg@.len(),
            msg_spec =~= msg@.take(shown as int),
            out@ =~= old(out)@ + head + msg_spec.take(i as int),
        decreases shown - i,
    {
        let c = msg.get_char(i);
        out.push(c);
        proof {
            assert(msg_spec.take(i + 1) =~= msg_spec.take(i as int) + seq![msg_spec[i as int]]);
        }
        i = i + 1;
    }
    proof {
        assert(msg_spec.take(shown as int) =~= msg_spec);
        assert(banner_row(cols as int) =~= head + msg_spec);
        assert(out@ =~= old(out)@ + banner_row(cols as int));
    }
}

impl EditorState {
    /// Append everything drawn for screen row `y`: erase it, then its
    /// text, then the separator when another row follows.
    fn push_row(&self, out: &mut Vec<char>, y: usize)
        requires
            self.wf(),
            y < self.dims.rows,
        ensures
            final(out)@ == old(out)@ + erase_line_seq() + row_text(*self, y as int) + row_sep(
                *self,
                y as int,
            ),
    {
        out.push('\x1b');
        out.push('[');
        out.push('K');
        let count = self.buf.line_count();
        let empty = self.buf.is_empty();
        let off = self.viewport.row_offset;
        if empty || off >= count || y >= count - off {
            if empty && y == self.dims.rows / 3 {
                push_banner(out, self.dims.cols);
            } else {
                out.push('~');
            }
        } else {
            let file_row = y + off;
            let len = self.buf.row_len(file_row);
            let from = if self.viewport.col_offset < len {
                self.viewport.col_offset
            } else {
                len
            };
            let width = if len - from < self.dims.cols {
                len - from
            } else {
                self.dims.cols
            };
            let mut piece = self.buf.line_slice(file_row, from, from + width);
            proof {
                assert(piece@ =~= row_text(*self, y as int));
            }
            out.append(&mut piece);
        }
        proof {
            assert(out@ =~= old(out)@ + erase_line_seq() + row_text(*self, y as int));
        }
        if y < self.dims.rows - 1 {
            out.push('\r');
            out.push('\n');
        }
        proof {
            assert(out@ =~= old(out)@ + erase_line_seq() + row_text(*self, y as int) + row_sep(
                *self,
                y as int,
            ));
        }
    }

    /// Paint the whole screen: the byte-for-byte output of one refresh,
    /// ready to be written to the terminal. The cursor must already be
    /// visible, as a scroll pass leaves it.
    #[verifier::loop_isolation(false)]
    pub fn render(&self) -> (r: Vec<char>)
        requires
            self.wf(),
            self.visible(),
        ensures
            r@ == render_spec(*self),
    {
        let mut out: Vec<char> = Vec::new();
        out.push('\x1b');
        out.push('[');
        out.push('?');
        out.push('2');
        out.push('5');
        out.push('l');
        out.push('\x1b');
        out.push('[');
        out.push('H');
        let ghost prologue = out@;
        proof {
            assert(prologue =~= hide_cursor_seq() + cursor_home_seq());
        }
        let mut y: usize = 0;
        while y < self.dims.rows
            invariant
                y <= self.dims.rows,
                out@ + rows_from(*self, y as int) =~= prologue + rows_from(*self, 0),
            decreases self.dims.rows - y,
        {
            let ghost row_start = out@;
            proof {
                assert(rows_from(*self, y as int) =~= erase_line_seq() + row_text(*self, y as int)
                    + row_sep(*self, y as int) + rows_from(*self, y + 1));
            }
            self.push_row(&mut out, y);
            proof {
                assert(out@ + rows_from(*self, y + 1) =~= row_start + rows_from(*self, y as int));
            }
            y = y + 1;
        }
        proof {
            assert(rows_from(*self, self.dims.rows as int) =~= Seq::<char>::empty());
            assert(out@ =~= prologue + rows_from(*self, 0));
        }
        let r1 = self.cursor.row - self.viewport.row_offset + 1;
        let c1 = self.cursor.col - self.viewport.col_offset + 1;
        let ghost body = out@;
        out.push('\x1b');
        out.push('[');
        push_decimal(&mut out, r1);
        out.push(';');
        push_decimal(&mut out, c1);
        out.push('H');
        out.push('\x1b');
        out.push('[');
        out.push('?');
        out.push('2');
        out.push('5');
        out.push('h');
        proof {
            assert(out@ =~= body + cursor_position_seq(r1 as nat, c1 as nat) + show_cursor_seq());
            assert(out@ =~= render_spec(*self));
        }
        out
    }

    /// One whole refresh: scroll the cursor back into view, then paint.
    /// Returns the terminal output of the repaint.
    pub fn refresh_screen(&mut self) -> (r: Vec<char>)
        requires
            old(self).wf(),
        ensures
            final(self).wf(),
            final(self).buf == old(self).buf,
            final(self).dims == old(self).dims,
            final(self).cursor == old(self).cursor,
            final(self).visible(),
            r@ == render_spec(*final(self)),
    {
        self.scroll();
        self.render()
    }
}

} // verus!
