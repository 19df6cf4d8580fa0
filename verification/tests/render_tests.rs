use kilo::buffer::LineBuffer;
use kilo::editor::EditorState;
use kilo::viewport::Cursor;
use kilo::viewport::ScreenDims;
use kilo::viewport::Viewport;

fn screen_of(text: &str, rows: u16, cols: u16) -> String {
    let mut s = EditorState::new(ScreenDims::new(rows, cols));
    if !text.is_empty() {
        s.set_buffer(LineBuffer::load(&text.chars().collect()));
    }
    s.refresh_screen().into_iter().collect()
}

#[test]
fn empty_screen_draws_every_row() {
    // Height 4: banner at row 4 / 3 = 1, truncated to the 10 columns;
    // padding (10 - 10) / 2 = 0 leaves no marker before it.
    let out = screen_of("", 4, 10);
    assert_eq!(
        out,
        "\x1b[?25l\x1b[H\x1b[K~\r\n\x1b[KKilo edito\r\n\x1b[K~\r\n\x1b[K~\x1b[1;1H\x1b[?25h"
    );
}

#[test]
fn empty_screen_has_height_many_rows() {
    for h in 1..8u16 {
        let out = screen_of("", h, 12);
        assert_eq!(out.matches("\x1b[K").count(), h as usize);
        assert_eq!(out.matches("\r\n").count(), h as usize - 1);
    }
}

#[test]
fn banner_is_centered_on_wide_screens() {
    // 40 columns, 28-character banner: padding 6, a marker then 5 spaces.
    let out = screen_of("", 6, 40);
    let banner_line = "~     Kilo editor -- version 0.0.1";
    assert!(out.contains(banner_line));
    assert!(banner_line.len() <= 40);
}

#[test]
fn content_rows_are_sliced_to_screen_width() {
    let out = screen_of("hello\nworld", 2, 3);
    assert_eq!(out, "\x1b[?25l\x1b[H\x1b[Khel\r\n\x1b[Kwor\x1b[1;1H\x1b[?25h");
}

#[test]
fn rows_past_the_text_show_markers() {
    let out = screen_of("only", 3, 10);
    assert_eq!(out, "\x1b[?25l\x1b[H\x1b[Konly\r\n\x1b[K~\r\n\x1b[K~\x1b[1;1H\x1b[?25h");
}

#[test]
fn scrolled_view_positions_cursor_and_slices() {
    let mut s = EditorState {
        dims: ScreenDims::new(2, 4),
        cursor: Cursor { row: 3, col: 6 },
        viewport: Viewport::origin(),
        buf: LineBuffer::load(&"abcdefgh\nbbbbbbbb\ncccccccc\ndddddddd".chars().collect()),
    };
    let out: String = s.refresh_screen().into_iter().collect();
    // Scroll: row offset 3 - 2 + 1 = 2, col offset 6 - 4 + 1 = 3.
    assert_eq!(s.viewport.row_offset, 2);
    assert_eq!(s.viewport.col_offset, 3);
    // Rows 2 and 3 from column 3, 4 wide; cursor at screen (2, 4).
    assert_eq!(out, "\x1b[?25l\x1b[H\x1b[Kcccc\r\n\x1b[Kdddd\x1b[2;4H\x1b[?25h");
}

#[test]
fn cursor_position_uses_multi_digit_numbers() {
    let mut text = String::new();
    for _ in 0..29 {
        text.push_str("0123456789ab\n");
    }
    text.push_str("0123456789ab");
    let mut s = EditorState {
        dims: ScreenDims::new(20, 80),
        cursor: Cursor { row: 14, col: 10 },
        viewport: Viewport::origin(),
        buf: LineBuffer::load(&text.chars().collect()),
    };
    let out: String = s.refresh_screen().into_iter().collect();
    // 1-indexed terminal coordinates: row 15, column 11.
    assert!(out.ends_with("\x1b[15;11H\x1b[?25h"));
}

#[test]
fn column_offset_past_line_end_draws_nothing() {
    let mut s = EditorState {
        dims: ScreenDims::new(2, 4),
        cursor: Cursor { row: 1, col: 7 },
        viewport: Viewport::origin(),
        buf: LineBuffer::load(&"ab\ncdefghij".chars().collect()),
    };
    let out: String = s.refresh_screen().into_iter().collect();
    // Column offset 7 - 4 + 1 = 4 is past the first line's end, so that
    // row shows nothing; the second row is sliced from column 4.
    assert_eq!(s.viewport.col_offset, 4);
    assert_eq!(out, "\x1b[?25l\x1b[H\x1b[K\r\n\x1b[Kghij\x1b[2;4H\x1b[?25h");
}
