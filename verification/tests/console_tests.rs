use kernel_console::writer::FrameBufferWriter;
use kernel_console::writer::Rgb;
use kernel_console::writer::alert_color;
use kernel_console::writer::default_color;

// A console with room for exactly 80 glyphs per row and 25 glyph rows:
// glyphs start at x = 1 and advance by 8, so the 80th spans up to x = 640;
// rows start at y = 1 and advance by 18, so the 25th spans up to y = 449.
const WIDE: usize = 641;
const TALL: usize = 451;

fn wide_console() -> FrameBufferWriter {
    let buffer = vec![0u8; WIDE * 3 * TALL];
    FrameBufferWriter::new(buffer, WIDE, TALL, WIDE, 3)
}

// A minimal console: 3 glyphs per row (x = 1, 9, 17) and a height of 54,
// three times the scroll step of 18.
fn tiny_console() -> FrameBufferWriter {
    let buffer = vec![0u8; 25 * 54];
    FrameBufferWriter::new(buffer, 25, 54, 25, 1)
}

#[test]
fn new_console_starts_cleared_at_border() {
    let w = wide_console();
    assert_eq!(w.cursor_x(), 1);
    assert_eq!(w.cursor_y(), 1);
    assert_eq!(w.color(), default_color());
    assert_eq!(w.scroll_count(), 0);
    assert!(w.buffer().iter().all(|&b| b == 0));
}

#[test]
fn printing_advances_cursor_monotonically_until_wrap() {
    let mut w = tiny_console();
    w.write_str("a");
    assert_eq!((w.cursor_x(), w.cursor_y()), (9, 1));
    w.write_str("b");
    assert_eq!((w.cursor_x(), w.cursor_y()), (17, 1));
    w.write_str("c");
    assert_eq!((w.cursor_x(), w.cursor_y()), (25, 1));
    // The fourth glyph no longer fits: wrap to the next row, one cell in.
    w.write_str("d");
    assert_eq!((w.cursor_x(), w.cursor_y()), (9, 19));
}

#[test]
fn newline_always_resets_column_to_border() {
    let mut w = wide_console();
    w.write_str("some text before the line feed");
    assert_ne!(w.cursor_x(), 1);
    w.write_str("\n");
    assert_eq!(w.cursor_x(), 1);

    let mut fresh = wide_console();
    fresh.write_str("\n");
    assert_eq!(fresh.cursor_x(), 1);
}

#[test]
fn carriage_return_resets_column_on_same_row() {
    let mut w = wide_console();
    w.write_str("abc\r");
    assert_eq!(w.cursor_x(), 1);
    assert_eq!(w.cursor_y(), 1);
}

#[test]
fn tab_prints_four_spaces() {
    let mut w = wide_console();
    w.write_str("\t");
    assert_eq!(w.cursor_x(), 1 + 4 * 8);
}

#[test]
fn rendering_writes_nonzero_pixels() {
    let mut w = tiny_console();
    w.write_str("A");
    assert!(w.buffer().iter().any(|&b| b != 0));
}

#[test]
fn enough_scrolls_clear_the_buffer() {
    let mut w = tiny_console();
    w.write_str("A");
    assert!(w.buffer().iter().any(|&b| b != 0));
    // Each line feed taken at the bottom scrolls by 18 pixel rows; three
    // scrolls cover the whole height of 54, after which nothing written
    // remains.
    w.write_str("\n\n\n\n\n");
    assert_eq!(w.scroll_count(), 3);
    assert!(w.buffer().iter().all(|&b| b == 0));
}

#[test]
fn alert_escape_switches_color_once_and_renders_nothing_extra() {
    let mut w = wide_console();
    w.write_str("\\c");
    assert_eq!(w.color(), alert_color());
    assert_eq!(w.cursor_x(), 1);
    w.write_str("A");
    assert_eq!(w.cursor_x(), 9);
    assert_eq!(w.color(), alert_color());
    w.write_str("\\r");
    assert_eq!(w.color(), default_color());
    assert_eq!(w.cursor_x(), 9);
}

#[test]
fn escape_before_other_character_renders_that_character() {
    let mut w = wide_console();
    w.write_str("\\z");
    assert_eq!(w.cursor_x(), 9);
    assert_eq!(w.color(), default_color());
}

#[test]
fn trailing_escape_renders_nothing() {
    let mut w = wide_console();
    w.write_str("\\");
    assert_eq!(w.cursor_x(), 1);
    assert_eq!(w.cursor_y(), 1);
}

#[test]
fn alert_color_composites_into_blue_channel() {
    let mut w = wide_console();
    w.write_str("\\cA");
    let fb = w.buffer();
    // Default color is (255, 0, 0); the alert color is (0, 0, 255), so an
    // alert glyph must light third channel bytes and no first channel ones.
    let mut first = 0u32;
    let mut third = 0u32;
    let mut i = 0;
    while i + 2 < fb.len() {
        if fb[i] != 0 {
            first += 1;
        }
        if fb[i + 2] != 0 {
            third += 1;
        }
        i += 3;
    }
    assert_eq!(first, 0);
    assert!(third > 0);
}

#[test]
fn compositing_scales_each_channel_by_its_color() {
    // The default color is (255, 0, 0) and the alert color is (0, 0, 255):
    // scaling by 255 hands the glyph intensity through unchanged, so the
    // first channel of a default glyph must equal the third channel of the
    // same glyph in the alert color, pixel for pixel, and every other
    // channel must stay zero.
    let mut plain = wide_console();
    plain.write_str("A");
    let mut alert = wide_console();
    alert.write_str("\\cA");
    let p = plain.buffer();
    let a = alert.buffer();
    assert_eq!(p.len(), a.len());
    let mut i = 0;
    while i + 2 < p.len() {
        assert_eq!(p[i], a[i + 2]);
        assert_eq!(p[i + 1], 0);
        assert_eq!(p[i + 2], 0);
        assert_eq!(a[i], 0);
        assert_eq!(a[i + 1], 0);
        i += 3;
    }
    assert!(p.iter().any(|&b| b != 0));
}

#[test]
fn two_line_greeting_leaves_cursor_on_third_row() {
    let mut w = wide_console();
    w.write_str("Hi, George!\nThis is Blessing's project.\n");
    assert_eq!(w.cursor_x(), 1);
    assert_eq!(w.cursor_y(), 1 + 2 * 18);
    assert_eq!(w.scroll_count(), 0);
    assert!(w.buffer().iter().any(|&b| b != 0));
}

#[test]
fn thirty_lines_scroll_exactly_six_times() {
    let mut w = wide_console();
    let lines: Vec<char> = "abcdefghijklmnopqrstuvwxyz0123".chars().collect();
    assert_eq!(lines.len(), 30);
    for c in &lines {
        let mut line = String::new();
        line.push(*c);
        line.push('\n');
        w.write_str(&line);
    }
    // The writing starts on one (empty) initial row and adds 30 rows of
    // text against 25 visible rows: 30 + 1 - 25 = 6 scrolls, one for each
    // line feed taken on the bottom row.
    assert_eq!(w.scroll_count(), 6);
    assert_eq!(w.cursor_x(), 1);
    assert_eq!(w.cursor_y(), 1 + 24 * 18);

    // The top visible glyph row now holds the 7th line: rendering that line
    // alone on a fresh console produces the same leading pixel band.
    let mut fresh = wide_console();
    fresh.write_str("g");
    let band = 18 * WIDE * 3;
    assert_eq!(&w.buffer()[..band], &fresh.buffer()[..band]);
    assert!(w.buffer()[..band].iter().any(|&b| b != 0));
}

#[test]
fn backspace_steps_left_and_clamps_at_border() {
    let mut w = wide_console();
    w.write_str("ab");
    assert_eq!(w.cursor_x(), 17);
    w.backspace();
    assert_eq!(w.cursor_x(), 9);
    w.backspace();
    assert_eq!(w.cursor_x(), 1);
    w.backspace();
    assert_eq!(w.cursor_x(), 1);
}

#[test]
fn cursor_moves_clamp_to_visible_area() {
    let mut w = wide_console();
    w.cursor_left();
    assert_eq!(w.cursor_x(), 1);
    w.cursor_right();
    assert_eq!(w.cursor_x(), 9);
    w.cursor_left();
    assert_eq!(w.cursor_x(), 1);
    w.cursor_up();
    assert_eq!(w.cursor_y(), 1);
    w.cursor_down();
    assert_eq!(w.cursor_y(), 19);
    w.cursor_up();
    assert_eq!(w.cursor_y(), 1);
}

#[test]
fn set_cursor_position_clamps_to_last_pixel() {
    let mut w = wide_console();
    w.set_cursor_position(5, 7);
    assert_eq!((w.cursor_x(), w.cursor_y()), (5, 7));
    w.set_cursor_position(100000, 100000);
    assert_eq!((w.cursor_x(), w.cursor_y()), (WIDE - 1, TALL - 1));
}

#[test]
fn move_text_right_and_left_clamp() {
    let mut w = wide_console();
    w.move_text_right(2);
    assert_eq!(w.cursor_x(), 3);
    w.move_text_left(2);
    assert_eq!(w.cursor_x(), 1);
    w.move_text_left(50);
    assert_eq!(w.cursor_x(), 0);
    w.move_text_right(usize::MAX);
    assert_eq!(w.cursor_x(), WIDE - 1);
}

#[test]
fn draw_and_clear_cursor_leave_cursor_position_alone() {
    let mut w = wide_console();
    w.draw_cursor();
    assert_eq!((w.cursor_x(), w.cursor_y()), (1, 1));
    assert!(w.buffer().iter().any(|&b| b != 0));
    w.clear_cursor();
    assert_eq!((w.cursor_x(), w.cursor_y()), (1, 1));
    assert!(w.buffer().iter().all(|&b| b == 0));
}

#[test]
fn clear_resets_cursor_and_pixels_but_keeps_color() {
    let mut w = wide_console();
    w.write_str("\\csome alert text");
    w.clear();
    assert_eq!((w.cursor_x(), w.cursor_y()), (1, 1));
    assert!(w.buffer().iter().all(|&b| b == 0));
    assert_eq!(w.color(), Rgb { r: 0, g: 0, b: 255 });
}

#[test]
fn unknown_glyph_falls_back_to_replacement() {
    let mut w = wide_console();
    // A character far outside the font's coverage still renders something.
    w.write_str("\u{4e16}");
    assert_eq!(w.cursor_x(), 9);
    assert!(w.buffer().iter().any(|&b| b != 0));
}
