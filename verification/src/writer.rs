//! Pixel-level text renderer over a framebuffer.
//!
//! The writer owns the pixel memory together with the buffer geometry the
//! boot loader reported (width, height, stride, bytes per pixel). It renders
//! glyph rasters of a mono font, tracks a cursor, wraps lines, scrolls the
//! visible area, and interprets inline color escapes. Every operation is
//! specified against `ConsoleView`, a mathematical image of the writer:
//! the byte sequence of the buffer, the geometry, the cursor, the active
//! color and the number of scrolls performed so far.

use vstd::prelude::*;
use crate::font::char_raster;
use crate::font::glyph_dims;
use crate::font::spec_char_raster;

verus! {

/// Vertical gap in pixel rows between two glyph rows.
pub const LINE_SPACING: usize = 2;

/// Horizontal gap in pixels between two glyphs.
pub const LETTER_SPACING: usize = 1;

/// Margin in pixels kept free along the borders of the visible area.
pub const BORDER_PADDING: usize = 1;

/// Width in pixels of every glyph raster of the font at the chosen weight
/// and height.
pub const RASTER_WIDTH: usize = 7;

/// Height in pixels of every glyph raster.
pub const RASTER_HEIGHT: usize = 16;

/// Horizontal cursor advance after printing one glyph.
pub const CHAR_ADVANCE: usize = RASTER_WIDTH + LETTER_SPACING;

/// Vertical cursor advance of a line feed.
pub const LINE_HEIGHT: usize = RASTER_HEIGHT + LINE_SPACING;

/// Narrowest buffer the renderer accepts: border plus one glyph cell.
pub const MIN_WIDTH: usize = BORDER_PADDING + RASTER_WIDTH + LETTER_SPACING;

/// Shortest buffer the renderer accepts: tall enough that a scroll forced by
/// a glyph near the bottom border never lifts the cursor above the top.
pub const MIN_HEIGHT: usize = LINE_HEIGHT + RASTER_HEIGHT + BORDER_PADDING;

/// A pixel color, one byte per channel, in the byte order of the buffer.
#[derive(Clone, Copy, Debug, PartialEq, Eq, Structural)]
pub struct Rgb {
    pub r: u8,
    pub g: u8,
    pub b: u8,
}

/// The color text is rendered in until an alert escape switches it.
pub open spec fn spec_default_color() -> Rgb {
    Rgb { r: 255, g: 0, b: 0 }
}

/// The color the alert escape switches to.
pub open spec fn spec_alert_color() -> Rgb {
    Rgb { r: 0, g: 0, b: 255 }
}

/// The color text is rendered in until an alert escape switches it.
pub fn default_color() -> (c: Rgb)
    ensures
        c == spec_default_color(),
{
    Rgb { r: 255, g: 0, b: 0 }
}

/// The color the alert escape switches to.
pub fn alert_color() -> (c: Rgb)
    ensures
        c == spec_alert_color(),
{
    Rgb { r: 0, g: 0, b: 255 }
}

/// Mathematical image of the writer: buffer bytes, geometry, cursor, active
/// color and the count of scrolls performed.
pub ghost struct ConsoleView {
    pub fb: Seq<u8>,
    pub width: int,
    pub height: int,
    pub stride: int,
    pub bpp: int,
    pub x: int,
    pub y: int,
    pub color: Rgb,
    pub scrolls: int,
}

impl ConsoleView {
    /// The geometry is sane: the buffer holds exactly `stride * bpp` bytes
    /// per pixel row of the height, the visible width fits in the stride,
    /// and the cursor column never passes the row width. The cursor row is
    /// left free: a line feed moves it below the height for the moment
    /// before the scroll.
    pub open spec fn geom_wf(self) -> bool {
        &&& 1 <= self.bpp
        &&& MIN_WIDTH <= self.width <= self.stride
        &&& MIN_HEIGHT <= self.height
        &&& self.fb.len() == self.stride * self.bpp * self.height
        &&& self.fb.len() <= usize::MAX
        &&& 0 <= self.x <= self.width
        &&& 0 <= self.scrolls <= usize::MAX
    }

    /// Well-formed between operations: sane geometry, and the cursor row
    /// strictly inside the visible height.
    pub open spec fn wf(self) -> bool {
        &&& self.geom_wf()
        &&& 0 <= self.y < self.height
    }

    /// Everything but buffer bytes, cursor and scroll count.
    pub open spec fn same_frame(self, other: ConsoleView) -> bool {
        &&& self.width == other.width
        &&& self.height == other.height
        &&& self.stride == other.stride
        &&& self.bpp == other.bpp
    }
}

/// One rendered channel: the color channel scaled by the glyph intensity,
/// `channel * intensity / 255`; channels past the three color bytes are zero.
pub open spec fn channel_byte(color: Rgb, idx: int, intensity: u8) -> u8 {
    if idx == 0 {
        (color.r * intensity / 255) as u8
    } else if idx == 1 {
        (color.g * intensity / 255) as u8
    } else if idx == 2 {
        (color.b * intensity / 255) as u8
    } else {
        0u8
    }
}

/// Buffer after compositing one glyph pixel of the given intensity at pixel
/// coordinates `(x, y)`: the `bpp` bytes of that pixel carry the scaled
/// color; coordinates outside the visible area leave the buffer unchanged.
pub open spec fn cv_put_pixel(v: ConsoleView, x: int, y: int, intensity: u8) -> ConsoleView {
    if 0 <= x < v.width && 0 <= y < v.height {
        let off = (y * v.stride + x) * v.bpp;
        ConsoleView {
            fb: Seq::new(
                v.fb.len(),
                |i: int|
                    if off <= i < off + v.bpp {
                        channel_byte(v.color, i - off, intensity)
                    } else {
                        v.fb[i]
                    },
            ),
            ..v
        }
    } else {
        v
    }
}

/// Saturating increment used for the scroll counter.
pub open spec fn bump(n: int) -> int {
    if n < usize::MAX {
        n + 1
    } else {
        n
    }
}

/// Buffer and cursor after one scroll: the content from one glyph-row height
/// onward moves to offset zero, the freed trailing region is zero-filled,
/// and the cursor moves up by one glyph-row height.
pub open spec fn cv_scroll(v: ConsoleView) -> ConsoleView {
    let sb = LINE_HEIGHT * v.stride * v.bpp;
    ConsoleView {
        fb: Seq::new(
            v.fb.len(),
            |i: int|
                if i + sb < v.fb.len() {
                    v.fb[i + sb]
                } else {
                    0u8
                },
        ),
        y: v.y - LINE_HEIGHT,
        scrolls: bump(v.scrolls),
        ..v
    }
}

/// Buffer after compositing the first `n` pixels of one glyph row whose
/// leftmost pixel sits at `(gx, py)`.
pub open spec fn cv_put_row(v: ConsoleView, gx: int, py: int, row: Seq<u8>, n: int) -> ConsoleView
    decreases n,
{
    if n <= 0 {
        v
    } else {
        cv_put_pixel(cv_put_row(v, gx, py, row, n - 1), gx + (n - 1), py, row[n - 1])
    }
}

/// Buffer after compositing the first `n` rows of a glyph whose top left
/// pixel sits at `(gx, gy)`.
pub open spec fn cv_put_rows(v: ConsoleView, gx: int, gy: int, g: Seq<Seq<u8>>, n: int) -> ConsoleView
    decreases n,
{
    if n <= 0 {
        v
    } else {
        cv_put_row(cv_put_rows(v, gx, gy, g, n - 1), gx, gy + (n - 1), g[n - 1], g[n - 1].len() as int)
    }
}

/// Buffer after compositing a whole glyph whose top left pixel sits at
/// `(gx, gy)`; pixels outside the visible area are dropped.
pub open spec fn cv_put_glyph(v: ConsoleView, gx: int, gy: int, g: Seq<Seq<u8>>) -> ConsoleView {
    cv_put_rows(v, gx, gy, g, g.len() as int)
}

/// Compositing a pixel changes buffer bytes only: geometry, cursor, color
/// and scroll count stay, and so does well-formedness.
proof fn lemma_put_pixel_frame(v: ConsoleView, x: int, y: int, intensity: u8)
    ensures
        cv_put_pixel(v, x, y, intensity).same_frame(v),
        cv_put_pixel(v, x, y, intensity).x == v.x,
        cv_put_pixel(v, x, y, intensity).y == v.y,
        cv_put_pixel(v, x, y, intensity).color == v.color,
        cv_put_pixel(v, x, y, intensity).scrolls == v.scrolls,
        cv_put_pixel(v, x, y, intensity).fb.len() == v.fb.len(),
{
}

/// Compositing a row changes buffer bytes only.
proof fn lemma_put_row_frame(v: ConsoleView, gx: int, py: int, row: Seq<u8>, n: int)
    ensures
        cv_put_row(v, gx, py, row, n).same_frame(v),
        cv_put_row(v, gx, py, row, n).x == v.x,
        cv_put_row(v, gx, py, row, n).y == v.y,
        cv_put_row(v, gx, py, row, n).color == v.color,
        cv_put_row(v, gx, py, row, n).scrolls == v.scrolls,
        cv_put_row(v, gx, py, row, n).fb.len() == v.fb.len(),
    decreases n,
{
    if n > 0 {
        lemma_put_row_frame(v, gx, py, row, n - 1);
        lemma_put_pixel_frame(cv_put_row(v, gx, py, row, n - 1), gx + (n - 1), py, row[n - 1]);
    }
}

/// Compositing rows changes buffer bytes only.
proof fn lemma_put_rows_frame(v: ConsoleView, gx: int, gy: int, g: Seq<Seq<u8>>, n: int)
    ensures
        cv_put_rows(v, gx, gy, g, n).same_frame(v),
        cv_put_rows(v, gx, gy, g, n).x == v.x,
        cv_put_rows(v, gx, gy, g, n).y == v.y,
        cv_put_rows(v, gx, gy, g, n).color == v.color,
        cv_put_rows(v, gx, gy, g, n).scrolls == v.scrolls,
        cv_put_rows(v, gx, gy, g, n).fb.len() == v.fb.len(),
    decreases n,
{
    if n > 0 {
        lemma_put_rows_frame(v, gx, gy, g, n - 1);
        lemma_put_row_frame(
            cv_put_rows(v, gx, gy, g, n - 1),
            gx,
            gy + (n - 1),
            g[n - 1],
            g[n - 1].len() as int,
        );
    }
}

/// The writer: exclusive owner of the pixel bytes and the cursor.
pub struct FrameBufferWriter {
    framebuffer: Vec<u8>,
    width: usize,
    height: usize,
    stride: usize,
    bytes_per_pixel: usize,
    x_pos: usize,
    y_pos: usize,
    current_color: Rgb,
    scroll_count: usize,
}

impl View for FrameBufferWriter {
    type V = ConsoleView;

    closed spec fn view(&self) -> ConsoleView {
        ConsoleView {
            fb: self.framebuffer@,
            width: self.width as int,
            height: self.height as int,
            stride: self.stride as int,
            bpp: self.bytes_per_pixel as int,
            x: self.x_pos as int,
            y: self.y_pos as int,
            color: self.current_color,
            scrolls: self.scroll_count as int,
        }
    }
}

impl FrameBufferWriter {
    /// Create a writer over the given pixel memory and geometry, cleared,
    /// with the cursor at the top left border and the default color active.
    pub fn new(
        framebuffer: Vec<u8>,
        width: usize,
        height: usize,
        stride: usize,
        bytes_per_pixel: usize,
    ) -> (w: FrameBufferWriter)
        requires
            1 <= bytes_per_pixel,
            MIN_WIDTH <= width <= stride,
            MIN_HEIGHT <= height,
                framebuffer@.len() == stride * bytes_per_pixel * height,
        ensures
            w@.wf(),
            w@.width == width,
            w@.height == height,
            w@.stride == stride,
            w@.bpp == bytes_per_pixel,
            w@.x == BORDER_PADDING,
            w@.y == BORDER_PADDING,
            w@.color == spec_default_color(),
            w@.scrolls == 0,
            w@.fb == Seq::new((stride * bytes_per_pixel * height) as nat, |i: int| 0u8),
    {
        let buffer_len = framebuffer.len();
        proof {
            assert(buffer_len == framebuffer@.len());
        }
        let mut w = FrameBufferWriter {
            framebuffer,
            width,
            height,
            stride,
            bytes_per_pixel,
            x_pos: BORDER_PADDING,
            y_pos: BORDER_PADDING,
            current_color: default_color(),
            scroll_count: 0,
        };
        w.clear();
        w
    }

    /// Zero every buffer byte and move the cursor to the top left border.
    /// Geometry, color and scroll count stay.
    #[verifier::loop_isolation(false)]
    pub fn clear(&mut self)
        requires
            old(self)@.wf(),
        ensures
            final(self)@.wf(),
            final(self)@.same_frame(old(self)@),
            final(self)@.color == old(self)@.color,
            final(self)@.scrolls == old(self)@.scrolls,
            final(self)@.x == BORDER_PADDING,
            final(self)@.y == BORDER_PADDING,
            final(self)@.fb == Seq::new(old(self)@.fb.len(), |i: int| 0u8),
    {
        self.x_pos = BORDER_PADDING;
        self.y_pos = BORDER_PADDING;
        let n = self.framebuffer.len();
        let mut i: usize = 0;
        while i < n
            invariant
                n == self.framebuffer@.len(),
                i <= n,
                forall|j: int| 0 <= j < i ==> self.framebuffer@[j] == 0u8,
                self.width == old(self).width,
                self.height == old(self).height,
                self.stride == old(self).stride,
                self.bytes_per_pixel == old(self).bytes_per_pixel,
                self.x_pos == BORDER_PADDING,
                self.y_pos == BORDER_PADDING,
                self.current_color == old(self).current_color,
                self.scroll_count == old(self).scroll_count,
            decreases n - i,
        {
            self.framebuffer[i] = 0;
            i += 1;
        }
        proof {
            assert(self@.fb =~= Seq::new(old(self)@.fb.len(), |i: int| 0u8));
        }
    }

    /// The cursor column, queryable for testing.
    pub fn cursor_x(&self) -> (x: usize)
        ensures
            x == self@.x,
    {
        self.x_pos
    }

    /// The cursor row, queryable for testing.
    pub fn cursor_y(&self) -> (y: usize)
        ensures
            y == self@.y,
    {
        self.y_pos
    }

    /// The active color, queryable for testing.
    pub fn color(&self) -> (c: Rgb)
        ensures
            c == self@.color,
    {
        self.current_color
    }

    /// How many scrolls the writer has performed (saturating).
    pub fn scroll_count(&self) -> (n: usize)
        ensures
            n == self@.scrolls,
    {
        self.scroll_count
    }

    /// The buffer bytes, queryable for testing.
    pub fn buffer(&self) -> (b: &Vec<u8>)
        ensures
            b@ == self@.fb,
    {
        &self.framebuffer
    }

    /// Width of the visible area in pixels.
    pub fn width(&self) -> (w: usize)
        ensures
            w == self@.width,
    {
        self.width
    }

    /// Height of the visible area in pixels.
    pub fn height(&self) -> (h: usize)
        ensures
            h == self@.height,
    {
        self.height
    }

    /// Composite one glyph pixel of the given intensity at pixel coordinates
    /// `(x, y)` against the active color. Coordinates outside the visible
    /// area are dropped.
    #[verifier::loop_isolation(false)]
    fn write_pixel(&mut self, x: usize, y: usize, intensity: u8)
        requires
            old(self)@.wf(),
        ensures
            final(self)@ == cv_put_pixel(old(self)@, x as int, y as int, intensity),
            final(self)@.wf(),
    {
        if x >= self.width || y >= self.height {
            return ;
        }
        proof {
            lemma_pixel_offset_in_bounds(self@, x as int, y as int);
        }
        let pixel_offset = y * self.stride + x;
        let byte_offset = pixel_offset * self.bytes_per_pixel;
        let ghost off = byte_offset as int;
        let ghost target = cv_put_pixel(old(self)@, x as int, y as int, intensity);
        let mut i: usize = 0;
        while i < self.bytes_per_pixel
            invariant
                old(self)@.wf(),
                self.width == old(self).width,
                self.height == old(self).height,
                self.stride == old(self).stride,
                self.bytes_per_pixel == old(self).bytes_per_pixel,
                self.x_pos == old(self).x_pos,
                self.y_pos == old(self).y_pos,
                self.current_color == old(self).current_color,
                self.scroll_count == old(self).scroll_count,
                i <= self.bytes_per_pixel,
                off == ((y * self.stride + x) * self.bytes_per_pixel) as int,
                off + self.bytes_per_pixel <= self.framebuffer@.len(),
                self.framebuffer@.len() == old(self)@.fb.len(),
                forall|j: int|
                    0 <= j < self.framebuffer@.len() && !(off <= j < off + i)
                        ==> self.framebuffer@[j] == old(self)@.fb[j],
                forall|j: int|
                    off <= j < off + i ==> self.framebuffer@[j] == channel_byte(
                        old(self).current_color,
                        j - off,
                        intensity,
                    ),
            decreases self.bytes_per_pixel - i,
        {
            let value: u8 = if i == 0 {
                channel_value(self.current_color.r, intensity)
            } else if i == 1 {
                channel_value(self.current_color.g, intensity)
            } else if i == 2 {
                channel_value(self.current_color.b, intensity)
            } else {
                0
            };
            self.framebuffer[byte_offset + i] = value;
            i += 1;
        }
        proof {
            assert(self@.fb =~= cv_put_pixel(old(self)@, x as int, y as int, intensity).fb);
        }
    }
}

/// Cursor and buffer after a carriage return: back to the left border.
pub open spec fn cv_carriage_return(v: ConsoleView) -> ConsoleView {
    ConsoleView { x: BORDER_PADDING as int, ..v }
}

/// Cursor and buffer after a line feed: left border, one glyph-row height
/// down; past the bottom of the visible area the content scrolls instead.
pub open spec fn cv_newline(v: ConsoleView) -> ConsoleView {
    let moved = ConsoleView { x: BORDER_PADDING as int, y: v.y + LINE_HEIGHT, ..v };
    if moved.y >= v.height {
        cv_scroll(moved)
    } else {
        moved
    }
}

impl FrameBufferWriter {
    /// Move the cursor back to the left border of the current glyph row.
    pub fn carriage_return(&mut self)
        requires
            old(self)@.wf(),
        ensures
            final(self)@ == cv_carriage_return(old(self)@),
            final(self)@.wf(),
    {
        self.x_pos = BORDER_PADDING;
    }

    /// Move the cursor to the left border of the next glyph row, scrolling
    /// when the next row would start below the visible area.
    pub fn newline(&mut self)
        requires
            old(self)@.wf(),
        ensures
            final(self)@ == cv_newline(old(self)@),
            final(self)@.wf(),
    {
        proof {
            lemma_geometry_bounds(self@);
        }
        self.y_pos = self.y_pos + LINE_HEIGHT;
        self.x_pos = BORDER_PADDING;
        if self.y_pos >= self.height {
            self.scroll();
        }
    }

    /// Shift the buffer content up by one glyph-row height, zero-fill the
    /// freed bottom region, and move the cursor up one glyph-row height.
    #[verifier::loop_isolation(false)]
    fn scroll(&mut self)
        requires
            old(self)@.geom_wf(),
            LINE_HEIGHT <= old(self)@.y < old(self)@.height + LINE_HEIGHT,
        ensures
            final(self)@ == cv_scroll(old(self)@),
            final(self)@.wf(),
    {
        proof {
            lemma_scroll_bytes_bound(self@);
        }
        let scroll_bytes = LINE_HEIGHT * self.stride * self.bytes_per_pixel;
        let n = self.framebuffer.len();
        let ghost sb = scroll_bytes as int;
        let mut i: usize = 0;
        while i < n - scroll_bytes
            invariant
                sb == LINE_HEIGHT * old(self)@.stride * old(self)@.bpp,
                scroll_bytes == sb,
                sb <= n,
                n == self.framebuffer@.len(),
                n == old(self)@.fb.len(),
                i <= n - sb,
                self.width == old(self).width,
                self.height == old(self).height,
                self.stride == old(self).stride,
                self.bytes_per_pixel == old(self).bytes_per_pixel,
                self.x_pos == old(self).x_pos,
                self.y_pos == old(self).y_pos,
                self.current_color == old(self).current_color,
                self.scroll_count == old(self).scroll_count,
                forall|j: int| 0 <= j < i ==> self.framebuffer@[j] == old(self)@.fb[j + sb],
                forall|j: int| i <= j < n ==> self.framebuffer@[j] == old(self)@.fb[j],
            decreases n - scroll_bytes - i,
        {
            self.framebuffer[i] = self.framebuffer[i + scroll_bytes];
            i += 1;
        }
        while i < n
            invariant
                sb <= n,
                n == self.framebuffer@.len(),
                n == old(self)@.fb.len(),
                n - sb <= i <= n,
                self.width == old(self).width,
                self.height == old(self).height,
                self.stride == old(self).stride,
                self.bytes_per_pixel == old(self).bytes_per_pixel,
                self.x_pos == old(self).x_pos,
                self.y_pos == old(self).y_pos,
                self.current_color == old(self).current_color,
                self.scroll_count == old(self).scroll_count,
                forall|j: int| 0 <= j < n - sb ==> self.framebuffer@[j] == old(self)@.fb[j + sb],
                forall|j: int| n - sb <= j < i ==> self.framebuffer@[j] == 0u8,
            decreases n - i,
        {
            self.framebuffer[i] = 0;
            i += 1;
        }
        self.y_pos = self.y_pos - LINE_HEIGHT;
        if self.scroll_count < usize::MAX {
            self.scroll_count = self.scroll_count + 1;
        }
        proof {
            assert(self@.fb =~= cv_scroll(old(self)@).fb);
        }
    }
}

/// The scroll step, one glyph-row height of bytes, fits inside the buffer.
proof fn lemma_scroll_bytes_bound(v: ConsoleView)
    requires
        v.geom_wf(),
    ensures
        LINE_HEIGHT * v.stride * v.bpp <= v.fb.len(),
        LINE_HEIGHT * v.stride <= v.fb.len(),
        v.stride * v.bpp <= v.fb.len(),
{
    assert(18 * v.stride * v.bpp <= v.stride * v.bpp * v.height && 18 * v.stride <= 18 * v.stride
        * v.bpp && v.stride * v.bpp <= v.stride * v.bpp * v.height) by (nonlinear_arith)
        requires
            35 <= v.height,
            9 <= v.stride,
            1 <= v.bpp,
    ;
}

/// Bounds that keep the cursor arithmetic inside `usize`.
proof fn lemma_geometry_bounds(v: ConsoleView)
    requires
        v.geom_wf(),
    ensures
        v.height + LINE_HEIGHT <= usize::MAX,
        v.width + CHAR_ADVANCE <= usize::MAX,
{
    assert(v.height * 9 <= v.stride * v.bpp * v.height && v.stride * 35 <= v.stride * v.bpp
        * v.height) by (nonlinear_arith)
        requires
            9 <= v.stride,
            1 <= v.bpp,
            35 <= v.height,
    ;
}

/// State after printing one glyph: wrap to a new line when the glyph would
/// not fit before the right border, scroll when it would reach below the
/// bottom border, composite the raster at the cursor, and advance the cursor
/// by one glyph cell.
pub open spec fn cv_print_glyph(v: ConsoleView, g: Seq<Seq<u8>>) -> ConsoleView {
    let wrapped = if v.x + RASTER_WIDTH >= v.width {
        cv_newline(v)
    } else {
        v
    };
    let lifted = if wrapped.y + RASTER_HEIGHT + BORDER_PADDING >= wrapped.height {
        cv_scroll(wrapped)
    } else {
        wrapped
    };
    let drawn = cv_put_glyph(lifted, lifted.x, lifted.y, g);
    ConsoleView { x: drawn.x + CHAR_ADVANCE, ..drawn }
}

/// State after one character: line feed, carriage return and tab move the
/// cursor; a lone escape character renders nothing; anything else prints its
/// glyph (tab prints four spaces).
pub open spec fn cv_char(v: ConsoleView, c: char) -> ConsoleView {
    if c == '\n' {
        cv_newline(v)
    } else if c == '\r' {
        cv_carriage_return(v)
    } else if c == '\t' {
        let space = spec_char_raster(' ');
        cv_print_glyph(cv_print_glyph(cv_print_glyph(cv_print_glyph(v, space), space), space), space)
    } else if c == '\\' {
        v
    } else {
        cv_print_glyph(v, spec_char_raster(c))
    }
}

/// State after a whole text: characters are interpreted one by one, except
/// that an escape character consumes its successor: `c` switches to the
/// alert color, `r` back to the default, and any other successor is printed
/// itself; neither the escape character nor its selector renders a glyph. A
/// trailing escape character renders nothing.
pub open spec fn cv_run(v: ConsoleView, s: Seq<char>) -> ConsoleView
    decreases s.len(),
{
    if s.len() == 0 {
        v
    } else if s[0] == '\\' {
        if s.len() == 1 {
            v
        } else if s[1] == 'c' {
            cv_run(ConsoleView { color: spec_alert_color(), ..v }, s.skip(2))
        } else if s[1] == 'r' {
            cv_run(ConsoleView { color: spec_default_color(), ..v }, s.skip(2))
        } else {
            cv_run(cv_char(v, s[1]), s.skip(2))
        }
    } else {
        cv_run(cv_char(v, s[0]), s.skip(1))
    }
}

impl FrameBufferWriter {
    /// Composite a glyph raster at the cursor position without moving the
    /// cursor. Raster pixels that fall outside the visible area are dropped.
    #[verifier::loop_isolation(false)]
    fn write_rendered_char(&mut self, glyph: &Vec<Vec<u8>>)
        requires
            old(self)@.wf(),
            glyph_dims(glyph.deep_view()),
        ensures
            final(self)@ == cv_put_glyph(old(self)@, old(self)@.x, old(self)@.y, glyph.deep_view()),
            final(self)@.wf(),
            final(self)@.same_frame(old(self)@),
            final(self)@.x == old(self)@.x,
            final(self)@.y == old(self)@.y,
            final(self)@.color == old(self)@.color,
            final(self)@.scrolls == old(self)@.scrolls,
            final(self)@.fb.len() == old(self)@.fb.len(),
    {
        proof {
            lemma_geometry_bounds(self@);
        }
        let ghost g = glyph.deep_view();
        let ghost gx = self@.x;
        let ghost gy = self@.y;
        let rows = glyph.len();
        let mut dy: usize = 0;
        while dy < rows
            invariant
                dy <= rows,
                self@ == cv_put_rows(old(self)@, gx, gy, g, dy as int),
            decreases rows - dy,
        {
            proof {
                lemma_put_rows_frame(old(self)@, gx, gy, g, dy as int);
            }
            let row = &glyph[dy];
            let ghost grow = g[dy as int];
            proof {
                assert(grow =~= row.deep_view());
                assert(grow.len() == RASTER_WIDTH);
            }
            let cols = row.len();
            let mut dx: usize = 0;
            while dx < cols
                invariant
                    dx <= cols,
                    dy < rows,
                    self@ == cv_put_row(
                        cv_put_rows(old(self)@, gx, gy, g, dy as int),
                        gx,
                        gy + dy,
                        grow,
                        dx as int,
                    ),
                decreases cols - dx,
            {
                proof {
                    lemma_put_rows_frame(old(self)@, gx, gy, g, dy as int);
                    lemma_put_row_frame(
                        cv_put_rows(old(self)@, gx, gy, g, dy as int),
                        gx,
                        gy + dy,
                        grow,
                        dx as int,
                    );
                }
                let px = self.x_pos + dx;
                let py = self.y_pos + dy;
                self.write_pixel(px, py, row[dx]);
                dx += 1;
            }
            dy += 1;
        }
        proof {
            lemma_put_rows_frame(old(self)@, gx, gy, g, rows as int);
        }
    }

    /// Print one glyph at the cursor: wrap before the right border, scroll
    /// away from the bottom border, composite the raster, advance the cursor
    /// one glyph cell.
    fn print_glyph(&mut self, c: char)
        requires
            old(self)@.wf(),
        ensures
            final(self)@ == cv_print_glyph(old(self)@, spec_char_raster(c)),
            final(self)@.wf(),
    {
        proof {
            lemma_geometry_bounds(self@);
        }
        if self.x_pos + RASTER_WIDTH >= self.width {
            self.newline();
        }
        if self.y_pos + RASTER_HEIGHT + BORDER_PADDING >= self.height {
            self.scroll();
        }
        let glyph = char_raster(c);
        self.write_rendered_char(&glyph);
        self.x_pos = self.x_pos + CHAR_ADVANCE;
    }

    /// Interpret and render one character: line feed, carriage return and
    /// tab move the cursor (tab prints four spaces); a lone escape character
    /// renders nothing; any other character prints its glyph.
    pub fn write_char(&mut self, c: char)
        requires
            old(self)@.wf(),
        ensures
            final(self)@ == cv_char(old(self)@, c),
            final(self)@.wf(),
    {
        if c == '\n' {
            self.newline();
        } else if c == '\r' {
            self.carriage_return();
        } else if c == '\t' {
            self.print_glyph(' ');
            self.print_glyph(' ');
            self.print_glyph(' ');
            self.print_glyph(' ');
        } else if c == '\\' {
        } else {
            self.print_glyph(c);
        }
    }

    /// Render a text at the cursor, interpreting control characters and
    /// color escapes: `c` after the escape character switches to the alert
    /// color, `r` switches back, any other successor is rendered itself, and
    /// the escape pair itself renders no glyph.
    #[verifier::loop_isolation(false)]
    pub fn write_str(&mut self, s: &str)
        requires
            old(self)@.wf(),
        ensures
            final(self)@ == cv_run(old(self)@, s@),
            final(self)@.wf(),
    {
        let n = s.unicode_len();
        proof {
            assert(s@.skip(0) =~= s@);
        }
        let mut i: usize = 0;
        while i < n
            invariant
                i <= n,
                n == s@.len(),
                self@.wf(),
                cv_run(old(self)@, s@) == cv_run(self@, s@.skip(i as int)),
            decreases n - i,
        {
            let ghost pre = self@;
            let c = s.get_char(i);
            if c == '\\' {
                if i + 1 < n {
                    let next = s.get_char(i + 1);
                    if next == 'c' {
                        self.current_color = alert_color();
                    } else if next == 'r' {
                        self.current_color = default_color();
                    } else {
                        self.write_char(next);
                    }
                    proof {
                        assert(s@.skip(i as int).skip(2) =~= s@.skip(i + 2));
                    }
                    i += 2;
                } else {
                    proof {
                        assert(s@.skip(i as int).len() == 1);
                    }
                    i += 1;
                }
            } else {
                self.write_char(c);
                proof {
                    assert(s@.skip(i as int).skip(1) =~= s@.skip(i + 1));
                }
                i += 1;
            }
        }
        proof {
            assert(s@.skip(n as int) =~= Seq::<char>::empty());
        }
    }
}

/// One rendered channel value: `channel * intensity / 255`.
fn channel_value(channel: u8, intensity: u8) -> (v: u8)
    ensures
        v == channel * intensity / 255,
{
    proof {
        assert(channel * intensity <= 255 * 255) by (nonlinear_arith)
            requires
                channel <= 255,
                intensity <= 255,
        ;
    }
    ((channel as u16) * (intensity as u16) / 255) as u8
}

/// A pixel inside the visible area addresses `bpp` bytes that lie inside
/// the buffer.
proof fn lemma_pixel_offset_in_bounds(v: ConsoleView, x: int, y: int)
    requires
        v.wf(),
        0 <= x < v.width,
        0 <= y < v.height,
    ensures
        0 <= (y * v.stride + x) * v.bpp,
        (y * v.stride + x) * v.bpp + v.bpp <= v.fb.len(),
        y * v.stride + x <= usize::MAX,
        (y * v.stride + x) * v.bpp <= usize::MAX,
{
    assert((y * v.stride + x) * v.bpp + v.bpp <= v.stride * v.bpp * v.height)
        by (nonlinear_arith)
        requires
            0 <= x < v.width,
            0 <= y < v.height,
            1 <= v.bpp,
            v.width <= v.stride,
    ;
    assert(0 <= (y * v.stride + x) * v.bpp) by (nonlinear_arith)
        requires
            0 <= x,
            0 <= y,
            0 <= v.stride,
            0 <= v.bpp,
    ;
    assert(y * v.stride + x <= (y * v.stride + x) * v.bpp) by (nonlinear_arith)
        requires
            0 <= y * v.stride + x,
            1 <= v.bpp,
    ;
    assert((y * v.stride + x) * v.bpp + v.bpp <= v.fb.len());
}

/// Cursor after a backspace or a step left: one glyph cell back, clamped to
/// the left border.
pub open spec fn cv_cursor_left(v: ConsoleView) -> ConsoleView {
    ConsoleView {
        x: if v.x >= BORDER_PADDING + CHAR_ADVANCE {
            v.x - CHAR_ADVANCE
        } else {
            BORDER_PADDING as int
        },
        ..v
    }
}

impl FrameBufferWriter {
    /// Move the cursor one glyph cell left, clamped to the left border. The
    /// pixels of the glyph left behind stay until something overwrites them.
    pub fn backspace(&mut self)
        requires
            old(self)@.wf(),
        ensures
            final(self)@ == cv_cursor_left(old(self)@),
            final(self)@.wf(),
    {
        if self.x_pos >= BORDER_PADDING + CHAR_ADVANCE {
            self.x_pos = self.x_pos - CHAR_ADVANCE;
        } else {
            self.x_pos = BORDER_PADDING;
        }
    }

    /// Move the cursor one glyph cell left, clamped to the left border,
    /// without rendering.
    pub fn cursor_left(&mut self)
        requires
            old(self)@.wf(),
        ensures
            final(self)@ == cv_cursor_left(old(self)@),
            final(self)@.wf(),
    {
        self.backspace();
    }

    /// Move the cursor one glyph cell right, clamped to the row width,
    /// without rendering.
    pub fn cursor_right(&mut self)
        requires
            old(self)@.wf(),
        ensures
            final(self)@ == (ConsoleView {
                x: if old(self)@.x + CHAR_ADVANCE <= old(self)@.width {
                    old(self)@.x + CHAR_ADVANCE
                } else {
                    old(self)@.x
                },
                ..old(self)@
            }),
            final(self)@.wf(),
    {
        proof {
            lemma_geometry_bounds(self@);
        }
        if self.x_pos + CHAR_ADVANCE <= self.width {
            self.x_pos = self.x_pos + CHAR_ADVANCE;
        }
    }

    /// Move the cursor one glyph row up, clamped to the top border, without
    /// rendering.
    pub fn cursor_up(&mut self)
        requires
            old(self)@.wf(),
        ensures
            final(self)@ == (ConsoleView {
                y: if old(self)@.y >= BORDER_PADDING + LINE_HEIGHT {
                    old(self)@.y - LINE_HEIGHT
                } else {
                    BORDER_PADDING as int
                },
                ..old(self)@
            }),
            final(self)@.wf(),
    {
        if self.y_pos >= BORDER_PADDING + LINE_HEIGHT {
            self.y_pos = self.y_pos - LINE_HEIGHT;
        } else {
            self.y_pos = BORDER_PADDING;
        }
    }

    /// Move the cursor one glyph row down, staying inside the visible area,
    /// without rendering.
    pub fn cursor_down(&mut self)
        requires
            old(self)@.wf(),
        ensures
            final(self)@ == (ConsoleView {
                y: if old(self)@.y + LINE_HEIGHT < old(self)@.height {
                    old(self)@.y + LINE_HEIGHT
                } else {
                    old(self)@.y
                },
                ..old(self)@
            }),
            final(self)@.wf(),
    {
        proof {
            lemma_geometry_bounds(self@);
        }
        if self.y_pos + LINE_HEIGHT < self.height {
            self.y_pos = self.y_pos + LINE_HEIGHT;
        }
    }

    /// Place the cursor at the given pixel coordinates, each clamped to the
    /// last pixel of the visible area.
    pub fn set_cursor_position(&mut self, x: usize, y: usize)
        requires
            old(self)@.wf(),
        ensures
            final(self)@ == (ConsoleView {
                x: if x < old(self)@.width {
                    x as int
                } else {
                    old(self)@.width - 1
                },
                y: if y < old(self)@.height {
                    y as int
                } else {
                    old(self)@.height - 1
                },
                ..old(self)@
            }),
            final(self)@.wf(),
    {
        let clamped_x = if x < self.width {
            x
        } else {
            self.width - 1
        };
        let clamped_y = if y < self.height {
            y
        } else {
            self.height - 1
        };
        self.x_pos = clamped_x;
        self.y_pos = clamped_y;
    }

    /// Move the cursor right by the given number of pixels, clamped to the
    /// last column of the visible area.
    pub fn move_text_right(&mut self, steps: usize)
        requires
            old(self)@.wf(),
        ensures
            final(self)@ == (ConsoleView {
                x: if old(self)@.x + steps < old(self)@.width {
                    old(self)@.x + steps
                } else {
                    old(self)@.width - 1
                },
                ..old(self)@
            }),
            final(self)@.wf(),
    {
        let ghost target = old(self)@.x + steps;
        let stepped = if usize::MAX - steps >= self.x_pos {
            self.x_pos + steps
        } else {
            usize::MAX
        };
        proof {
            assert(stepped < self@.width <==> target < self@.width);
        }
        let y = self.y_pos;
        self.set_cursor_position(stepped, y);
    }

    /// Move the cursor left by the given number of pixels, clamped to the
    /// left edge of the visible area.
    pub fn move_text_left(&mut self, steps: usize)
        requires
            old(self)@.wf(),
        ensures
            final(self)@ == (ConsoleView {
                x: if old(self)@.x - steps >= 0 {
                    if old(self)@.x - steps < old(self)@.width {
                        old(self)@.x - steps
                    } else {
                        old(self)@.width - 1
                    }
                } else {
                    0
                },
                ..old(self)@
            }),
            final(self)@.wf(),
    {
        let stepped = if self.x_pos >= steps {
            self.x_pos - steps
        } else {
            0
        };
        let y = self.y_pos;
        self.set_cursor_position(stepped, y);
    }

    /// Render a caret glyph at the cursor position without moving the
    /// cursor, for a blink effect driven by the idle loop.
    pub fn draw_cursor(&mut self)
        requires
            old(self)@.wf(),
        ensures
            final(self)@ == cv_put_glyph(
                old(self)@,
                old(self)@.x,
                old(self)@.y,
                spec_char_raster('|'),
            ),
            final(self)@.wf(),
    {
        let caret = char_raster('|');
        self.write_rendered_char(&caret);
    }

    /// Erase the caret by rendering the blank glyph at the cursor position
    /// without moving the cursor.
    pub fn clear_cursor(&mut self)
        requires
            old(self)@.wf(),
        ensures
            final(self)@ == cv_put_glyph(
                old(self)@,
                old(self)@.x,
                old(self)@.y,
                spec_char_raster(' '),
            ),
            final(self)@.wf(),
    {
        let blank = char_raster(' ');
        self.write_rendered_char(&blank);
    }
}

/// Compositing a glyph changes buffer bytes only: geometry, cursor, color
/// and scroll count stay.
pub proof fn lemma_put_glyph_frame(v: ConsoleView, gx: int, gy: int, g: Seq<Seq<u8>>)
    ensures
        cv_put_glyph(v, gx, gy, g).same_frame(v),
        cv_put_glyph(v, gx, gy, g).x == v.x,
        cv_put_glyph(v, gx, gy, g).y == v.y,
        cv_put_glyph(v, gx, gy, g).color == v.color,
        cv_put_glyph(v, gx, gy, g).scrolls == v.scrolls,
        cv_put_glyph(v, gx, gy, g).fb.len() == v.fb.len(),
{
    lemma_put_rows_frame(v, gx, gy, g, g.len() as int);
}

/// Text with no control characters and no escape character: every character
/// prints one glyph.
pub open spec fn plain_text(s: Seq<char>) -> bool {
    forall|i: int|
        0 <= i < s.len() ==> s[i] != '\n' && s[i] != '\r' && s[i] != '\t' && (#[trigger] s[i])
            != '\\'
}

/// The glyph row the cursor sits on, counted from the top of everything ever
/// written: scrolled-away rows stay counted.
pub open spec fn absolute_row_pos(v: ConsoleView) -> int {
    v.y + LINE_HEIGHT * v.scrolls
}

/// One scroll keeps the view well-formed and, short of counter saturation,
/// keeps the absolute row position.
proof fn lemma_scroll_wf(v: ConsoleView)
    requires
        v.geom_wf(),
        LINE_HEIGHT <= v.y < v.height + LINE_HEIGHT,
    ensures
        cv_scroll(v).wf(),
        cv_scroll(v).same_frame(v),
        cv_scroll(v).x == v.x,
        cv_scroll(v).color == v.color,
        v.scrolls < usize::MAX ==> absolute_row_pos(cv_scroll(v)) == absolute_row_pos(v),
{
}

/// A line feed keeps the view well-formed; short of counter saturation it
/// moves the absolute row position down by exactly one glyph row.
proof fn lemma_newline_wf(v: ConsoleView)
    requires
        v.wf(),
    ensures
        cv_newline(v).wf(),
        cv_newline(v).same_frame(v),
        cv_newline(v).x == BORDER_PADDING,
        cv_newline(v).color == v.color,
        v.scrolls < usize::MAX ==> absolute_row_pos(cv_newline(v)) == absolute_row_pos(v)
            + LINE_HEIGHT,
{
}

/// Printing one glyph keeps the view well-formed.
proof fn lemma_print_glyph_wf(v: ConsoleView, g: Seq<Seq<u8>>)
    requires
        v.wf(),
    ensures
        cv_print_glyph(v, g).wf(),
        cv_print_glyph(v, g).same_frame(v),
        cv_print_glyph(v, g).color == v.color,
{
    let wrapped = if v.x + RASTER_WIDTH >= v.width {
        cv_newline(v)
    } else {
        v
    };
    lemma_newline_wf(v);
    if wrapped.y + RASTER_HEIGHT + BORDER_PADDING >= wrapped.height {
        lemma_scroll_wf(wrapped);
    }
    let lifted = if wrapped.y + RASTER_HEIGHT + BORDER_PADDING >= wrapped.height {
        cv_scroll(wrapped)
    } else {
        wrapped
    };
    lemma_put_rows_frame(lifted, lifted.x, lifted.y, g, g.len() as int);
}

/// Interpreting one character keeps the view well-formed and the geometry.
proof fn lemma_char_wf(v: ConsoleView, c: char)
    requires
        v.wf(),
    ensures
        cv_char(v, c).wf(),
        cv_char(v, c).same_frame(v),
        cv_char(v, c).color == v.color,
{
    lemma_newline_wf(v);
    let space = spec_char_raster(' ');
    lemma_print_glyph_wf(v, space);
    lemma_print_glyph_wf(cv_print_glyph(v, space), space);
    lemma_print_glyph_wf(cv_print_glyph(cv_print_glyph(v, space), space), space);
    lemma_print_glyph_wf(
        cv_print_glyph(cv_print_glyph(cv_print_glyph(v, space), space), space),
        space,
    );
    lemma_print_glyph_wf(v, spec_char_raster(c));
}

/// Printing one glyph advances the cursor monotonically rightward by one
/// glyph cell while the glyph fits before the right border; otherwise the
/// cursor wraps: it ends one cell past the left border, on the next glyph
/// row (a row that scrolling may have brought into view from below).
pub proof fn lemma_print_advances(v: ConsoleView, g: Seq<Seq<u8>>)
    requires
        v.wf(),
        v.scrolls + 2 <= usize::MAX,
    ensures
        v.x + RASTER_WIDTH < v.width ==> cv_print_glyph(v, g).x == v.x + CHAR_ADVANCE
            && absolute_row_pos(cv_print_glyph(v, g)) == absolute_row_pos(v),
        v.x + RASTER_WIDTH >= v.width ==> cv_print_glyph(v, g).x == BORDER_PADDING + CHAR_ADVANCE
            && absolute_row_pos(cv_print_glyph(v, g)) == absolute_row_pos(v) + LINE_HEIGHT,
{
    let wrapped = if v.x + RASTER_WIDTH >= v.width {
        cv_newline(v)
    } else {
        v
    };
    lemma_newline_wf(v);
    if wrapped.y + RASTER_HEIGHT + BORDER_PADDING >= wrapped.height {
        lemma_scroll_wf(wrapped);
    }
    let lifted = if wrapped.y + RASTER_HEIGHT + BORDER_PADDING >= wrapped.height {
        cv_scroll(wrapped)
    } else {
        wrapped
    };
    lemma_put_rows_frame(lifted, lifted.x, lifted.y, g, g.len() as int);
}

/// Running a text one character longer means interpreting the state after
/// the shorter prefix by that one character, provided the text holds no
/// escape characters.
pub proof fn lemma_plain_run_step(v: ConsoleView, s: Seq<char>, i: int)
    requires
        plain_text(s),
        0 <= i < s.len(),
    ensures
        cv_run(v, s.take(i + 1)) == cv_char(cv_run(v, s.take(i)), s[i]),
    decreases i,
{
    if i == 0 {
        assert(s.take(1).len() == 1);
        assert(s.take(1)[0] == s[0]);
        assert(s.take(1).skip(1) =~= Seq::<char>::empty());
        assert(s.take(0) =~= Seq::<char>::empty());
        assert(cv_run(v, s.take(1)) == cv_run(cv_char(v, s[0]), s.take(1).skip(1)));
    } else {
        let stepped = cv_char(v, s[0]);
        assert(s.take(i + 1)[0] == s[0]);
        assert(s.take(i + 1).skip(1) =~= s.skip(1).take(i));
        assert(s.take(i)[0] == s[0]);
        assert(s.take(i).skip(1) =~= s.skip(1).take(i - 1));
        assert(plain_text(s.skip(1))) by {
            assert(forall|j: int|
                0 <= j < s.skip(1).len() ==> #[trigger] s.skip(1)[j] == s[j + 1]);
        }
        lemma_plain_run_step(stepped, s.skip(1), i - 1);
        assert(s.skip(1)[i - 1] == s[i]);
    }
}

/// For every character of a text free of control and escape characters, the
/// cursor moves monotonically rightward by one glyph cell, until a glyph
/// would pass the right border; then it wraps to the first cell of the next
/// glyph row.
pub proof fn lemma_plain_text_rightward(v: ConsoleView, s: Seq<char>, i: int)
    requires
        v.wf(),
        plain_text(s),
        0 <= i < s.len(),
        cv_run(v, s.take(i)).scrolls + 2 <= usize::MAX,
    ensures
        ({
            let before = cv_run(v, s.take(i));
            let after = cv_run(v, s.take(i + 1));
            &&& (before.x + RASTER_WIDTH < before.width ==> after.x == before.x + CHAR_ADVANCE
                && absolute_row_pos(after) == absolute_row_pos(before))
            &&& (before.x + RASTER_WIDTH >= before.width ==> after.x == BORDER_PADDING
                + CHAR_ADVANCE && absolute_row_pos(after) == absolute_row_pos(before)
                + LINE_HEIGHT)
        }),
{
    lemma_run_wf(v, s.take(i));
    lemma_plain_run_step(v, s, i);
    let before = cv_run(v, s.take(i));
    lemma_print_advances(before, spec_char_raster(s[i]));
}

/// Running any text keeps the view well-formed.
pub proof fn lemma_run_wf(v: ConsoleView, s: Seq<char>)
    requires
        v.wf(),
    ensures
        cv_run(v, s).wf(),
        cv_run(v, s).same_frame(v),
    decreases s.len(),
{
    if s.len() == 0 {
    } else if s[0] == '\\' {
        if s.len() == 1 {
        } else if s[1] == 'c' {
            lemma_run_wf(ConsoleView { color: spec_alert_color(), ..v }, s.skip(2));
        } else if s[1] == 'r' {
            lemma_run_wf(ConsoleView { color: spec_default_color(), ..v }, s.skip(2));
        } else {
            lemma_char_wf(v, s[1]);
            lemma_run_wf(cv_char(v, s[1]), s.skip(2));
        }
    } else {
        lemma_char_wf(v, s[0]);
        lemma_run_wf(cv_char(v, s[0]), s.skip(1));
    }
}

/// A line feed always sets the cursor column to the left border, whatever
/// the column was.
pub proof fn lemma_newline_resets_column(v: ConsoleView)
    ensures
        cv_char(v, '\n').x == BORDER_PADDING,
{
}

/// The alert escape changes the color exactly once and renders nothing for
/// its two characters: running a text that begins with the escape pair is
/// running the remainder from the alert color, cursor and buffer untouched.
pub proof fn lemma_alert_escape(v: ConsoleView, rest: Seq<char>)
    ensures
        cv_run(v, seq!['\\', 'c'] + rest) == cv_run(
            ConsoleView { color: spec_alert_color(), ..v },
            rest,
        ),
{
    let s = seq!['\\', 'c'] + rest;
    assert(s[0] == '\\');
    assert(s[1] == 'c');
    assert(s.skip(2) =~= rest);
}

/// The view after `n` scrolls.
pub open spec fn cv_scroll_n(v: ConsoleView, n: int) -> ConsoleView
    decreases n,
{
    if n <= 0 {
        v
    } else {
        cv_scroll(cv_scroll_n(v, n - 1))
    }
}

/// After `n` scrolls the buffer holds the bytes that sat `n` glyph-row
/// heights below, and zeros where nothing sat there.
proof fn lemma_scroll_n_shifts(v: ConsoleView, n: int)
    requires
        n >= 0,
        v.stride >= 0,
        v.bpp >= 0,
    ensures
        cv_scroll_n(v, n).fb.len() == v.fb.len(),
        cv_scroll_n(v, n).same_frame(v),
        forall|i: int|
            0 <= i < v.fb.len() ==> cv_scroll_n(v, n).fb[i] == (if i + n * (LINE_HEIGHT * v.stride
                * v.bpp) < v.fb.len() {
                v.fb[i + n * (LINE_HEIGHT * v.stride * v.bpp)]
            } else {
                0u8
            }),
    decreases n,
{
    let sb = LINE_HEIGHT * v.stride * v.bpp;
    assert((18 * v.stride) * v.bpp >= 0) by (nonlinear_arith)
        requires
            v.stride >= 0,
            v.bpp >= 0,
    ;
    assert(sb == (18 * v.stride) * v.bpp);
    assert(sb >= 0);
    if n == 0 {
        assert(0 * sb == 0) by (nonlinear_arith);
    } else {
        lemma_scroll_n_shifts(v, n - 1);
        assert((n - 1) * sb + sb == n * sb && (n - 1) * sb >= 0) by (nonlinear_arith)
            requires
                n >= 1,
                sb >= 0,
        ;
    }
}

/// Scrolling is idempotent in effect on content out of the visible window:
/// once the scrolls add up to at least the visible height, the buffer is
/// fully cleared.
pub proof fn lemma_scrolls_clear_buffer(v: ConsoleView, n: int)
    requires
        v.geom_wf(),
        n >= 0,
        n * LINE_HEIGHT >= v.height,
    ensures
        cv_scroll_n(v, n).fb =~= Seq::new(v.fb.len(), |i: int| 0u8),
{
    let sb = LINE_HEIGHT * v.stride * v.bpp;
    lemma_scroll_n_shifts(v, n);
    assert(n * sb >= v.fb.len()) by (nonlinear_arith)
        requires
            n * LINE_HEIGHT >= v.height,
            sb == LINE_HEIGHT * v.stride * v.bpp,
            v.fb.len() == v.stride * v.bpp * v.height,
            v.stride >= 9,
            v.bpp >= 1,
            v.height >= 35,
            n >= 0,
            LINE_HEIGHT == 18,
    ;
}

} // verus!
