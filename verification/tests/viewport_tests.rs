use kilo::viewport::Cursor;
use kilo::viewport::ScreenDims;
use kilo::viewport::Viewport;

#[test]
fn recompute_keeps_cursor_inside_window() {
    for rows in 1..6u16 {
        for cols in 1..6u16 {
            let dims = ScreenDims::new(rows, cols);
            let mut v = Viewport::origin();
            for row in 0..20usize {
                for col in 0..20usize {
                    v.recompute(Cursor { row, col }, dims);
                    assert!(v.row_offset <= row);
                    assert!(row < v.row_offset + rows as usize);
                    assert!(v.col_offset <= col);
                    assert!(col < v.col_offset + cols as usize);
                }
            }
        }
    }
}

#[test]
fn recompute_moves_only_as_far_as_needed() {
    let dims = ScreenDims::new(5, 5);
    let mut v = Viewport { row_offset: 10, col_offset: 10 };
    // Already visible: nothing moves.
    v.recompute(Cursor { row: 12, col: 14 }, dims);
    assert_eq!((v.row_offset, v.col_offset), (10, 10));
    // One past the bottom-right corner: each offset advances by one.
    v.recompute(Cursor { row: 15, col: 15 }, dims);
    assert_eq!((v.row_offset, v.col_offset), (11, 11));
    // Above and left: the offsets snap to the cursor.
    v.recompute(Cursor { row: 3, col: 2 }, dims);
    assert_eq!((v.row_offset, v.col_offset), (3, 2));
}
