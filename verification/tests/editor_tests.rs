use term_editor::document::TextDocument;
use term_editor::editor::{clip_line, Dimensions, Editor, EditorState, Location};

/// The editor moves the cursor to the left, staying inside the region.
#[test]
fn moves_cursor_left_within_bounds() {
    let mut editor = Editor::new(Dimensions::new(80, 24));

    editor.move_cursor_right(10);
    editor.move_cursor_left(1);

    assert_eq!(editor.cursor_location.column_ix, 9);
}

/// The editor moves the cursor to the right, staying inside the region.
#[test]
fn moves_cursor_right_within_bounds() {
    let mut editor = Editor::new(Dimensions::new(80, 24));

    editor.move_cursor_right(1);

    assert_eq!(editor.cursor_location.column_ix, 1);
}

/// The editor moves the cursor up, staying inside the region.
#[test]
fn moves_cursor_up_within_bounds() {
    let mut editor = Editor::new(Dimensions::new(80, 24));

    editor.move_cursor_down(3);
    editor.move_cursor_up(1);

    assert_eq!(editor.cursor_location.row_ix, 2);
}

/// The editor moves the cursor down, staying inside the region.
#[test]
fn moves_cursor_down_within_bounds() {
    let mut editor = Editor::new(Dimensions::new(80, 24));

    editor.move_cursor_down(1);

    assert_eq!(editor.cursor_location.row_ix, 1);
}

/// The left edge of the region stops the cursor.
#[test]
fn cursor_constrained_within_editor_left_side() {
    let mut editor = Editor::new(Dimensions::new(80, 24));

    editor.move_cursor_left(1);

    assert_eq!(editor.cursor_location.column_ix, 0);
}

/// The right edge of the region stops the cursor.
#[test]
fn constrains_cursor_within_editor_right_side() {
    let mut editor = Editor::new(Dimensions::new(80, 24));

    editor.move_cursor_right(100);

    assert_eq!(editor.cursor_location.column_ix, 79);
}

/// The top of the region stops the cursor.
#[test]
fn cursor_constrained_within_editor_top() {
    let mut editor = Editor::new(Dimensions::new(80, 24));

    editor.move_cursor_up(1);

    assert_eq!(editor.cursor_location.row_ix, 0);
}

/// The bottom of the region stops the cursor.
#[test]
fn constrains_cursor_within_editor_bottom() {
    let mut editor = Editor::new(Dimensions::new(80, 24));

    editor.move_cursor_down(30);

    assert_eq!(editor.cursor_location.row_ix, 23);
}

/// An editor without a document renders nothing.
#[test]
fn get_render_content_when_editor_empty() {
    let editor = Editor::new(Dimensions::new(80, 24));

    assert_eq!(editor.get_render_content(), Vec::<&str>::new());
}

/// A small document is rendered line by line.
#[test]
fn get_render_content() {
    let mut editor = Editor::new(Dimensions::new(80, 24));
    let document = TextDocument::new("Hello\r\nWorld!");
    editor.set_content(&document);

    assert_eq!(editor.get_render_content(), vec!["Hello", "World!"]);
}

/// Content taller than the region is cut at the bottom.
#[test]
fn get_render_content_when_too_tall_to_fit() {
    let mut editor = Editor::new(Dimensions::new(10, 1));
    let document = TextDocument::new("First\r\nSecond");
    editor.set_content(&document);

    assert_eq!(editor.get_render_content(), vec!["First"]);
}

/// Content wider than the region is cut at the right.
#[test]
fn get_render_content_when_too_wide_to_fit() {
    let mut editor = Editor::new(Dimensions::new(4, 1));
    let document = TextDocument::new("First");
    editor.set_content(&document);

    assert_eq!(editor.get_render_content(), vec!["Firs"]);
}

/// Scrolling one column to the right shifts what is rendered.
#[test]
fn get_render_content_when_scrolled_width() {
    let mut editor = Editor::new(Dimensions::new(4, 1));
    let document = TextDocument::new("First");
    editor.set_content(&document);

    editor.scroll_to(1, 0);
    assert_eq!(editor.get_render_content(), vec!["irst"]);
}

/// Scrolling so far that the window reaches beyond the end of the line
/// renders what is left of the line.
#[test]
fn get_render_content_when_scrolled_beyond_end_of_content() {
    let mut editor = Editor::new(Dimensions::new(4, 1));
    let document = TextDocument::new("First");
    editor.set_content(&document);

    editor.scroll_to(2, 0);
    assert_eq!(editor.get_render_content(), vec!["rst"]);
}

/// Moving the cursor past the right edge scrolls the content.
#[test]
fn auto_scroll_when_cursor_moved_too_far_right() {
    let mut editor = Editor::new(Dimensions::new(4, 1));
    let document = TextDocument::new("First");
    editor.set_content(&document);

    editor.move_cursor_right(4);
    assert_eq!(editor.get_render_content(), vec!["irst"]);
}

/// One move scrolls by one column however far it asks to go, and scrolling
/// stops where the line ends.
#[test]
fn auto_scroll_when_cursor_moved_too_far_right_many_times() {
    let mut editor = Editor::new(Dimensions::new(4, 1));
    let document = TextDocument::new("First");
    editor.set_content(&document);

    editor.move_cursor_right(10);
    assert_eq!(editor.get_render_content(), vec!["irst"]);
}

/// A new editor has its cursor at the origin and nothing scrolled or loaded.
#[test]
fn new_editor_starts_at_origin() {
    let editor = Editor::new(Dimensions::new(80, 24));

    assert_eq!(editor.dimensions, Dimensions::new(80, 24));
    assert_eq!(editor.cursor_location, Location::new(0, 0));
    assert_eq!(editor.scroll_amount, Location::new(0, 0));
    assert_eq!(editor.content, None);
    assert_eq!(editor.cursor_screen_position(), (0, 0));
}

/// Moving left by `n` and then right by `n` restores the column when the
/// cursor was at least `n` columns from the left edge.
#[test]
fn left_then_right_restores_column() {
    for start in [0u16, 1, 5, 40, 79] {
        for n in 0..=start {
            let mut editor = Editor::new(Dimensions::new(80, 24));
            editor.move_cursor_right(start);
            editor.move_cursor_left(n);
            editor.move_cursor_right(n);
            assert_eq!(editor.cursor_location.column_ix, start);
            assert_eq!(editor.scroll_amount, Location::new(0, 0));
        }
    }
}

/// A cursor stopped at the left edge does not come back to its column.
#[test]
fn left_then_right_after_left_stop_lands_elsewhere() {
    let mut editor = Editor::new(Dimensions::new(80, 24));
    editor.move_cursor_right(3);
    editor.move_cursor_left(5);
    assert_eq!(editor.cursor_location.column_ix, 0);
    editor.move_cursor_right(5);
    assert_eq!(editor.cursor_location.column_ix, 5);
}

/// Whatever is asked of it, the cursor stays inside the region after every
/// single move.
#[test]
fn cursor_stays_in_bounds_after_every_move() {
    let sizes = [(1u16, 1u16), (1, 7), (7, 1), (4, 3), (80, 24), (65535, 65535)];
    let amounts = [0u16, 1, 2, 3, 23, 24, 25, 79, 80, 81, 1000, 65535];
    for (columns, rows) in sizes {
        let mut editor = Editor::new(Dimensions::new(columns, rows));
        for (step, n) in amounts.iter().chain(amounts.iter().rev()).enumerate() {
            match step % 4 {
                0 => editor.move_cursor_right(*n),
                1 => editor.move_cursor_down(*n),
                2 => editor.move_cursor_left(*n / 2),
                _ => editor.move_cursor_up(*n / 3),
            }
            assert!(editor.cursor_location.column_ix <= columns - 1);
            assert!(editor.cursor_location.row_ix <= rows - 1);
        }
    }
}

/// A move by zero cells changes nothing.
#[test]
fn move_by_zero_is_a_no_op() {
    let mut editor = Editor::new(Dimensions::new(4, 3));
    let document = TextDocument::new("A long first line\r\nsecond");
    editor.set_content(&document);
    editor.move_cursor_right(3);
    editor.move_cursor_down(2);
    editor.scroll_to(2, 1);

    editor.move_cursor_left(0);
    editor.move_cursor_right(0);
    editor.move_cursor_up(0);
    editor.move_cursor_down(0);

    assert_eq!(editor.cursor_location, Location::new(3, 2));
    assert_eq!(editor.scroll_amount, Location::new(2, 1));
}

/// The last row is reached by a move that ends exactly on it, and a move
/// that ends one row below it stops on it too.
#[test]
fn move_down_at_the_last_row() {
    let mut editor = Editor::new(Dimensions::new(80, 24));
    editor.move_cursor_down(23);
    assert_eq!(editor.cursor_location.row_ix, 23);

    let mut editor = Editor::new(Dimensions::new(80, 24));
    editor.move_cursor_down(24);
    assert_eq!(editor.cursor_location.row_ix, 23);

    let mut editor = Editor::new(Dimensions::new(80, 24));
    editor.move_cursor_down(20);
    editor.move_cursor_down(4);
    assert_eq!(editor.cursor_location.row_ix, 23);

    let mut editor = Editor::new(Dimensions::new(80, 24));
    editor.move_cursor_down(65535);
    editor.move_cursor_down(65535);
    assert_eq!(editor.cursor_location.row_ix, 23);
}

/// The last column is reached by a move that ends exactly on it, without
/// scrolling.
#[test]
fn move_right_onto_the_last_column_does_not_scroll() {
    let mut editor = Editor::new(Dimensions::new(4, 1));
    let document = TextDocument::new("First");
    editor.set_content(&document);

    editor.move_cursor_right(3);

    assert_eq!(editor.cursor_location.column_ix, 3);
    assert_eq!(editor.scroll_amount, Location::new(0, 0));
    assert_eq!(editor.get_render_content(), vec!["Firs"]);
}

/// Each move past the right edge scrolls one column until the end of the
/// line is in view.
#[test]
fn repeated_moves_right_scroll_one_column_each() {
    let mut editor = Editor::new(Dimensions::new(4, 1));
    let document = TextDocument::new("Firstly");
    editor.set_content(&document);

    editor.move_cursor_right(3);
    assert_eq!(editor.scroll_amount.column_ix, 0);
    editor.move_cursor_right(1);
    assert_eq!(editor.scroll_amount.column_ix, 1);
    assert_eq!(editor.get_render_content(), vec!["irst"]);
    editor.move_cursor_right(200);
    assert_eq!(editor.scroll_amount.column_ix, 2);
    assert_eq!(editor.get_render_content(), vec!["rstl"]);
    editor.move_cursor_right(1);
    assert_eq!(editor.scroll_amount.column_ix, 3);
    assert_eq!(editor.get_render_content(), vec!["stly"]);
    editor.move_cursor_right(1);
    assert_eq!(editor.scroll_amount.column_ix, 3);
    assert_eq!(editor.cursor_location.column_ix, 3);
}

/// Moving left never scrolls back.
#[test]
fn move_left_does_not_scroll() {
    let mut editor = Editor::new(Dimensions::new(4, 1));
    let document = TextDocument::new("First");
    editor.set_content(&document);
    editor.move_cursor_right(4);
    assert_eq!(editor.scroll_amount.column_ix, 1);

    editor.move_cursor_left(10);

    assert_eq!(editor.cursor_location.column_ix, 0);
    assert_eq!(editor.scroll_amount.column_ix, 1);
    assert_eq!(editor.get_render_content(), vec!["irst"]);
}

/// Scrolling goes by the line on the cursor's row.
#[test]
fn auto_scroll_looks_at_the_line_under_the_cursor() {
    let document = TextDocument::new("ab\r\nA much longer line");

    let mut editor = Editor::new(Dimensions::new(4, 2));
    editor.set_content(&document);
    editor.move_cursor_right(9);
    assert_eq!(editor.scroll_amount.column_ix, 0);

    editor.move_cursor_down(1);
    editor.move_cursor_right(9);
    assert_eq!(editor.scroll_amount.column_ix, 1);
    assert_eq!(editor.get_render_content(), vec!["b", " muc"]);

    let mut editor = Editor::new(Dimensions::new(4, 5));
    editor.set_content(&document);
    editor.move_cursor_down(3);
    editor.move_cursor_right(9);
    assert_eq!(editor.cursor_location, Location::new(3, 3));
    assert_eq!(editor.scroll_amount.column_ix, 0);
}

/// Without content a move past the right edge only stops the cursor.
#[test]
fn move_right_without_content_only_stops_the_cursor() {
    let mut editor = Editor::new(Dimensions::new(4, 1));
    editor.move_cursor_right(10);
    assert_eq!(editor.cursor_location.column_ix, 3);
    assert_eq!(editor.scroll_amount, Location::new(0, 0));
}

/// The row of the scroll offset is kept but changes nothing on display.
#[test]
fn row_scroll_is_stored_and_not_used() {
    let mut editor = Editor::new(Dimensions::new(10, 2));
    let document = TextDocument::new("one\r\ntwo\r\nthree");
    editor.set_content(&document);

    editor.scroll_to(0, 1);

    assert_eq!(editor.scroll_amount, Location::new(0, 1));
    assert_eq!(editor.get_render_content(), vec!["one", "two"]);
}

/// A line that ends before the scroll offset renders as an empty slice.
#[test]
fn line_shorter_than_scroll_offset_renders_empty() {
    let mut editor = Editor::new(Dimensions::new(4, 3));
    let document = TextDocument::new("ab\r\nabcdefgh\r\nabc");
    editor.set_content(&document);

    editor.scroll_to(3, 0);
    assert_eq!(editor.get_render_content(), vec!["", "defg", ""]);

    editor.scroll_to(65535, 0);
    assert_eq!(editor.get_render_content(), vec!["", "", ""]);
}

/// Loading content leaves cursor and scroll offset alone, and a second load
/// replaces the first.
#[test]
fn set_content_keeps_cursor_and_scroll() {
    let mut editor = Editor::new(Dimensions::new(4, 2));
    editor.move_cursor_right(2);
    editor.move_cursor_down(1);
    editor.scroll_to(1, 0);
    let first = TextDocument::new("First");
    let second = TextDocument::new("Second");

    editor.set_content(&first);
    assert_eq!(editor.cursor_location, Location::new(2, 1));
    assert_eq!(editor.scroll_amount, Location::new(1, 0));
    assert_eq!(editor.get_render_content(), vec!["irst"]);

    editor.set_content(&second);
    assert_eq!(editor.content, Some("Second"));
    assert_eq!(editor.get_render_content(), vec!["econ"]);
}

/// A resize replaces the size and does not touch the cursor; the next move
/// right or down brings the cursor back inside.
#[test]
fn resize_does_not_move_the_cursor() {
    let mut editor = Editor::new(Dimensions::new(80, 24));
    editor.move_cursor_right(50);
    editor.move_cursor_down(20);

    editor.resize(Dimensions::new(10, 5));
    assert_eq!(editor.dimensions, Dimensions::new(10, 5));
    assert_eq!(editor.cursor_location, Location::new(50, 20));

    editor.move_cursor_right(0);
    editor.move_cursor_down(0);
    assert_eq!(editor.cursor_location, Location::new(9, 4));
}

/// A region without rows shows no line; one without columns shows empty
/// lines.
#[test]
fn unsized_region_shows_nothing() {
    let document = TextDocument::new("First\r\nSecond");

    let mut editor = Editor::new(Dimensions::new(4, 0));
    editor.set_content(&document);
    assert_eq!(editor.get_render_content(), Vec::<&str>::new());

    let mut editor = Editor::new(Dimensions::new(0, 2));
    editor.set_content(&document);
    assert_eq!(editor.get_render_content(), vec!["", ""]);
}

/// Content both too wide and too tall is cut at the right and at the bottom.
#[test]
fn render_content_clipped_both_ways() {
    let mut editor = Editor::new(Dimensions::new(4, 1));
    let document = TextDocument::new("First\r\nSecond");
    editor.set_content(&document);

    assert_eq!(editor.get_render_content(), vec!["Firs"]);
}

/// Offsets count characters, not bytes.
#[test]
fn render_content_counts_characters() {
    let mut editor = Editor::new(Dimensions::new(3, 2));
    let document = TextDocument::new("héllo\r\nüber");
    editor.set_content(&document);

    assert_eq!(editor.get_render_content(), vec!["hél", "übe"]);
    editor.scroll_to(1, 0);
    assert_eq!(editor.get_render_content(), vec!["éll", "ber"]);
    editor.move_cursor_right(5);
    assert_eq!(editor.scroll_amount.column_ix, 2);
    editor.move_cursor_right(5);
    assert_eq!(editor.scroll_amount.column_ix, 2);
}

/// `try_move_cursor_right` moves where the move can be made.
#[test]
fn try_move_cursor_right_moves_like_move_cursor_right() {
    let mut editor = Editor::new(Dimensions::new(4, 1));
    let document = TextDocument::new("First");
    editor.set_content(&document);

    assert!(editor.try_move_cursor_right(4));

    assert_eq!(editor.cursor_location.column_ix, 3);
    assert_eq!(editor.scroll_amount.column_ix, 1);
}

/// `try_move_cursor_right` declines in a region without columns.
#[test]
fn try_move_cursor_right_declines_without_columns() {
    let mut editor = Editor::new(Dimensions::new(0, 3));

    assert!(!editor.try_move_cursor_right(1));

    assert_eq!(editor.cursor_location, Location::new(0, 0));
}

/// `try_move_cursor_right` declines where the scroll offset would have to
/// grow beyond the largest offset, and moves where it need not grow.
#[test]
fn try_move_cursor_right_declines_at_the_largest_scroll_offset() {
    let long_line = "x".repeat(70_000);
    let document = TextDocument::new(&long_line);
    let mut editor = Editor::new(Dimensions::new(4, 1));
    editor.set_content(&document);
    editor.scroll_to(65535, 0);

    assert!(editor.try_move_cursor_right(3));
    assert_eq!(editor.cursor_location.column_ix, 3);
    assert_eq!(editor.scroll_amount.column_ix, 65535);

    assert!(!editor.try_move_cursor_right(1));
    assert_eq!(editor.cursor_location.column_ix, 3);
    assert_eq!(editor.scroll_amount.column_ix, 65535);

    let short = TextDocument::new("short");
    editor.set_content(&short);
    assert!(editor.try_move_cursor_right(1));
    assert_eq!(editor.cursor_location.column_ix, 3);
    assert_eq!(editor.scroll_amount.column_ix, 65535);
}

/// The cut of one line, with the window before, across and after its end.
#[test]
fn clip_line_cuts_the_window() {
    assert_eq!(clip_line("First", 0, 4), "Firs");
    assert_eq!(clip_line("First", 1, 4), "irst");
    assert_eq!(clip_line("First", 2, 4), "rst");
    assert_eq!(clip_line("First", 5, 4), "");
    assert_eq!(clip_line("First", 6, 4), "");
    assert_eq!(clip_line("First", 0, 0), "");
    assert_eq!(clip_line("First", 0, 65535), "First");
    assert_eq!(clip_line("First", 65535, 65535), "");
    assert_eq!(clip_line("", 0, 4), "");
}

/// The default sizes and locations, and copies of them.
#[test]
fn dimensions_and_locations() {
    let default = Dimensions::default();
    assert_eq!((default.columns, default.rows), (80, 24));
    let given = Dimensions::new(7, 9);
    assert_eq!((given.columns, given.rows), (7, 9));
    assert_eq!(Dimensions::from(&given), given);

    let origin = Location::default();
    assert_eq!((origin.column_ix, origin.row_ix), (0, 0));
    let place = Location::new(3, 4);
    assert_eq!((place.column_ix, place.row_ix), (3, 4));
    assert_eq!(Location::from(&place), place);

    let state = EditorState::default();
    assert_eq!((state.columns, state.rows, state.column_ix, state.row_ix), (0, 0, 0, 0));
}

/// Once the end of the line is in view, a further move past the right edge
/// scrolls no more, however far it asks to go.
#[test]
fn auto_scroll_stops_where_the_line_ends() {
    let mut editor = Editor::new(Dimensions::new(4, 1));
    let document = TextDocument::new("First");
    editor.set_content(&document);

    editor.move_cursor_right(4);
    editor.move_cursor_right(10);

    assert_eq!(editor.get_render_content(), vec!["irst"]);
    assert_eq!(editor.scroll_amount, Location::new(1, 0));
    assert_eq!(editor.cursor_location, Location::new(3, 0));
}
