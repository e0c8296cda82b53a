//! Framebuffer text console with scrolling, configurable font size, ANSI
//! colour handling and a log buffer.
//!
//! The screen is modelled as the vector of pixels the console has drawn;
//! blitting those pixels into the memory-mapped framebuffer is the
//! caller's work.  Everything else — cursor movement, scrolling, glyph
//! placement, the ANSI escape parser and the log replay — is computed
//! and verified here.

use vstd::arithmetic::div_mod::{lemma_fundamental_div_mod, lemma_mod_bound};
use vstd::prelude::*;

verus! {

/// Screen width in pixels.
pub const SCREEN_WIDTH: usize = 1920;

/// Screen height in pixels.
pub const SCREEN_HEIGHT: usize = 1200;

/// Total number of pixels of the screen.
pub const SCREEN_PIXELS: usize = 2_304_000;

/// Base font width in pixels (8x8 font).
pub const BASE_FONT_WIDTH: usize = 8;

/// Base font height in pixels (8x8 font).
pub const BASE_FONT_HEIGHT: usize = 8;

/// Largest accepted font scale: the glyph height must still fit the
/// screen at least once.
pub const MAX_FONT_SCALE: usize = 150;

/// Default font scale (1 = 8x8, 2 = 16x16, and so on).
pub const DEFAULT_FONT_SCALE: usize = 2;

/// Log buffer size: the number of characters cached for replay.
pub const LOG_BUFFER_SIZE: usize = 65536;

/// Framebuffer base address of the device window, for the caller that
/// blits.
pub const VGA_BASE_ADDR: u64 = 0xffff_0000_ecd2_0000;

/// Default foreground colour (white).
pub const FG_COLOR: u32 = 0xFFFFFF;

/// Default background colour (black).
pub const BG_COLOR: u32 = 0x000000;

/// Wraps an index in `[0, 2 * LOG_BUFFER_SIZE)` back into the buffer.
pub open spec fn log_wrap(i: int) -> int {
    if i < LOG_BUFFER_SIZE {
        i
    } else {
        i - LOG_BUFFER_SIZE
    }
}

/// The cached bytes after `b` arrives: appended at the end, displacing
/// the oldest byte once the buffer is full.
pub open spec fn log_appended(l: Seq<u8>, b: u8) -> Seq<u8> {
    if l.len() < LOG_BUFFER_SIZE {
        l.push(b)
    } else {
        l.subrange(1, l.len() as int).push(b)
    }
}

/// Circular buffer (FIFO) for caching log history.
pub struct LogBuffer {
    buffer: Vec<u8>,
    head: usize,  // Write position
    tail: usize,  // Read position
    len: usize,  // Current number of elements
}

impl View for LogBuffer {
    type V = Seq<u8>;

    /// The cached bytes, oldest to newest.
    closed spec fn view(&self) -> Seq<u8> {
        Seq::new(self.len as nat, |i: int| self.buffer@[log_wrap(self.tail + i)])
    }
}

impl LogBuffer {
    /// Shape of the ring: full backing storage, both positions inside
    /// it, and the write position exactly `len` past the read position.
    pub closed spec fn wf(&self) -> bool {
        &&& self.buffer@.len() == LOG_BUFFER_SIZE
        &&& self.head < LOG_BUFFER_SIZE
        &&& self.tail < LOG_BUFFER_SIZE
        &&& self.len <= LOG_BUFFER_SIZE
        &&& self.head as int == log_wrap(self.tail + self.len)
    }

    /// Creates a new empty log buffer.
    pub fn new() -> (b: Self)
        ensures
            b.wf(),
            b@ == Seq::<u8>::empty(),
    {
        let mut buffer: Vec<u8> = Vec::new();
        for i in 0..LOG_BUFFER_SIZE
            invariant
                buffer@.len() == i,
        {
            buffer.push(0);
        }
        let b = LogBuffer { buffer, head: 0, tail: 0, len: 0 };
        proof {
            assert(b@ =~= Seq::<u8>::empty());
        }
        b
    }

    /// Pushes a byte to the buffer, overwriting the oldest byte if full.
    pub fn push(&mut self, byte: u8)
        requires
            old(self).wf(),
        ensures
            final(self).wf(),
            final(self)@ == log_appended(old(self)@, byte),
    {
        self.buffer.set(self.head, byte);
        self.head = if self.head + 1 == LOG_BUFFER_SIZE {
            0
        } else {
            self.head + 1
        };
        if self.len == LOG_BUFFER_SIZE {
            // Buffer is full, move the read position forward.
            self.tail = if self.tail + 1 == LOG_BUFFER_SIZE {
                0
            } else {
                self.tail + 1
            };
        } else {
            self.len = self.len + 1;
        }
        proof {
            assert(self@ =~= log_appended(old(self)@, byte));
        }
    }

    /// Pushes multiple bytes to the buffer, in order.
    pub fn push_bytes(&mut self, bytes: &Vec<u8>)
        requires
            old(self).wf(),
        ensures
            final(self).wf(),
            final(self)@ == bytes@.fold_left(old(self)@, |l: Seq<u8>, b: u8| log_appended(l, b)),
    {
        let n = bytes.len();
        for i in 0..n
            invariant
                n == bytes@.len(),
                self.wf(),
                self@ == bytes@.take(i as int).fold_left(
                    old(self)@,
                    |l: Seq<u8>, b: u8| log_appended(l, b),
                ),
        {
            proof {
                assert(bytes@.take(i + 1).drop_last() =~= bytes@.take(i as int));
                assert(bytes@.take(i + 1).last() == bytes@[i as int]);
            }
            self.push(bytes[i]);
        }
        proof {
            assert(bytes@.take(n as int) =~= bytes@);
        }
    }

    /// Returns the number of bytes in the buffer.
    pub fn len(&self) -> (n: usize)
        requires
            self.wf(),
        ensures
            n == self@.len(),
    {
        self.len
    }

    /// Returns true if the buffer is empty.
    pub fn is_empty(&self) -> (r: bool)
        requires
            self.wf(),
        ensures
            r == (self@.len() == 0),
    {
        self.len == 0
    }

    /// Iterates over all cached bytes, oldest to newest.
    pub fn iter(&self) -> (it: LogBufferIter<'_>)
        requires
            self.wf(),
        ensures
            it.wf(),
            it@ == self@,
    {
        let it = LogBufferIter { buffer: &self.buffer, pos: self.tail, remaining: self.len };
        proof {
            assert(it@ =~= self@);
        }
        it
    }

    /// The cached bytes as one vector, oldest to newest.
    pub fn contents(&self) -> (v: Vec<u8>)
        requires
            self.wf(),
        ensures
            v@ == self@,
    {
        let mut v: Vec<u8> = Vec::new();
        let n = self.len;
        let mut pos = self.tail;
        for i in 0..n
            invariant
                self.wf(),
                n == self@.len(),
                pos == log_wrap(self.tail + i),
                v@ =~= self@.take(i as int),
        {
            v.push(self.buffer[pos]);
            pos = if pos + 1 == LOG_BUFFER_SIZE {
                0
            } else {
                pos + 1
            };
            proof {
                assert(v@ =~= self@.take(i + 1));
            }
        }
        proof {
            assert(self@.take(n as int) =~= self@);
        }
        v
    }
}

/// Iterator over the bytes a [`LogBuffer`] caches, oldest to newest.
pub struct LogBufferIter<'a> {
    buffer: &'a Vec<u8>,
    pos: usize,
    remaining: usize,
}

impl<'a> View for LogBufferIter<'a> {
    type V = Seq<u8>;

    /// The bytes not yet yielded.
    closed spec fn view(&self) -> Seq<u8> {
        Seq::new(self.remaining as nat, |i: int| self.buffer@[log_wrap(self.pos + i)])
    }
}

impl<'a> LogBufferIter<'a> {
    /// Shape of the iterator: full backing storage, position inside it.
    pub closed spec fn wf(&self) -> bool {
        &&& self.buffer@.len() == LOG_BUFFER_SIZE
        &&& self.pos < LOG_BUFFER_SIZE
        &&& self.remaining <= LOG_BUFFER_SIZE
    }

    /// Yields the oldest remaining byte, or `None` when done.
    pub fn next(&mut self) -> (r: Option<u8>)
        requires
            old(self).wf(),
        ensures
            final(self).wf(),
            old(self)@.len() == 0 ==> r is None && final(self)@ == old(self)@,
            old(self)@.len() > 0 ==> r == Some(old(self)@[0]) && final(self)@ == old(
                self,
            )@.subrange(1, old(self)@.len() as int),
    {
        if self.remaining == 0 {
            return None;
        }
        let byte = self.buffer[self.pos];
        self.pos = if self.pos + 1 == LOG_BUFFER_SIZE {
            0
        } else {
            self.pos + 1
        };
        self.remaining = self.remaining - 1;
        proof {
            assert(self@ =~= old(self)@.subrange(1, old(self)@.len() as int));
        }
        Some(byte)
    }
}


/// ANSI colour palette: the sixteen colours, normal then bright.
pub open spec fn spec_ansi_palette(idx: int) -> u32 {
    if idx == 0 {
        0x000000
    } else if idx == 1 {
        0xCC0000
    } else if idx == 2 {
        0x00CC00
    } else if idx == 3 {
        0xCCCC00
    } else if idx == 4 {
        0x0000CC
    } else if idx == 5 {
        0xCC00CC
    } else if idx == 6 {
        0x00CCCC
    } else if idx == 7 {
        0xCCCCCC
    } else if idx == 8 {
        0x666666
    } else if idx == 9 {
        0xFF0000
    } else if idx == 10 {
        0x00FF00
    } else if idx == 11 {
        0xFFFF00
    } else if idx == 12 {
        0x0000FF
    } else if idx == 13 {
        0xFF00FF
    } else if idx == 14 {
        0x00FFFF
    } else {
        0xFFFFFF
    }
}

/// The RGB colour an ANSI SGR colour code selects: 30-37 and 40-47 the
/// normal colours, 90-97 and 100-107 the bright ones, anything else no
/// colour.
pub open spec fn spec_ansi_to_rgb(code: u8) -> Option<u32> {
    if 30 <= code <= 37 {
        Some(spec_ansi_palette(code - 30))
    } else if 40 <= code <= 47 {
        Some(spec_ansi_palette(code - 40))
    } else if 90 <= code <= 97 {
        Some(spec_ansi_palette(code - 90 + 8))
    } else if 100 <= code <= 107 {
        Some(spec_ansi_palette(code - 100 + 8))
    } else {
        None
    }
}

/// One palette colour by index.
fn ansi_palette(idx: u8) -> (c: u32)
    requires
        idx < 16,
    ensures
        c == spec_ansi_palette(idx as int),
{
    match idx {
        0 => 0x000000,
        1 => 0xCC0000,
        2 => 0x00CC00,
        3 => 0xCCCC00,
        4 => 0x0000CC,
        5 => 0xCC00CC,
        6 => 0x00CCCC,
        7 => 0xCCCCCC,
        8 => 0x666666,
        9 => 0xFF0000,
        10 => 0x00FF00,
        11 => 0xFFFF00,
        12 => 0x0000FF,
        13 => 0xFF00FF,
        14 => 0x00FFFF,
        _ => 0xFFFFFF,
    }
}

/// Convert an ANSI colour code to its RGB colour.
pub fn ansi_to_rgb(code: u8) -> (r: Option<u32>)
    ensures
        r == spec_ansi_to_rgb(code),
{
    if 30 <= code && code <= 37 {
        Some(ansi_palette(code - 30))
    } else if 40 <= code && code <= 47 {
        Some(ansi_palette(code - 40))
    } else if 90 <= code && code <= 97 {
        Some(ansi_palette(code - 90 + 8))
    } else if 100 <= code && code <= 107 {
        Some(ansi_palette(code - 100 + 8))
    } else {
        None
    }
}

/// ANSI escape sequence parser state.
#[derive(Clone, Copy, Debug, PartialEq, Eq, Structural)]
pub enum AnsiState {
    /// Ordinary bytes are drawn.
    Normal,
    /// After ESC.
    Escape,
    /// After ESC `[`.
    Csi,
}

/// The console's complete abstract state: the drawn screen, the cursor,
/// the colour and font configuration, the cached log, and the escape
/// parser registers.
#[verifier::ext_equal]
pub ghost struct VgaView {
    /// The drawn pixels, row-major.
    pub screen: Seq<u32>,
    /// Cursor column, in character cells.
    pub cursor_x: int,
    /// Cursor row, in character cells.
    pub cursor_y: int,
    /// Font scale factor.
    pub font_scale: int,
    /// Number of character columns at the current scale.
    pub max_cols: int,
    /// Number of character rows at the current scale.
    pub max_rows: int,
    /// Current foreground colour.
    pub fg: u32,
    /// Current background colour.
    pub bg: u32,
    /// Default foreground colour.
    pub default_fg: u32,
    /// Default background colour.
    pub default_bg: u32,
    /// Cached log bytes, oldest first.
    pub log: Seq<u8>,
    /// Escape parser state.
    pub ansi: AnsiState,
    /// Accumulated escape parameter.
    pub param: u8,
}

/// Width in pixels of one character cell.
pub open spec fn font_w(v: VgaView) -> int {
    BASE_FONT_WIDTH * v.font_scale
}

/// Height in pixels of one character cell.
pub open spec fn font_h(v: VgaView) -> int {
    BASE_FONT_HEIGHT * v.font_scale
}

/// Well-formedness of a console state: the screen holds every pixel, the
/// scale is in range, the cell grid matches the scale, and the cursor is
/// inside the grid (the column may rest one past the last cell until the
/// next visible byte wraps it).
pub open spec fn view_wf(v: VgaView) -> bool {
    &&& v.screen.len() == SCREEN_PIXELS
    &&& 1 <= v.font_scale <= MAX_FONT_SCALE
    &&& v.max_cols == SCREEN_WIDTH as int / font_w(v)
    &&& v.max_rows == SCREEN_HEIGHT as int / font_h(v)
    &&& 1 <= v.max_cols
    &&& 1 <= v.max_rows
    &&& 0 <= v.cursor_x <= v.max_cols
    &&& 0 <= v.cursor_y < v.max_rows
    &&& v.log.len() <= LOG_BUFFER_SIZE
}

/// A sequence of `len` pixels of colour `c`.
pub open spec fn filled(len: int, c: u32) -> Seq<u32> {
    Seq::new(len as nat, |i: int| c)
}

/// The screen after one pixel write, clipped at the screen edges.
pub open spec fn put_pixel(screen: Seq<u32>, x: int, y: int, c: u32) -> Seq<u32> {
    if 0 <= x < SCREEN_WIDTH && 0 <= y < SCREEN_HEIGHT {
        screen.update(y * SCREEN_WIDTH + x, c)
    } else {
        screen
    }
}

/// The colour of glyph pixel (`px`, `py`) inside a cell drawn at scale
/// `scale`: the glyph bit for the underlying 8x8 position picks the
/// foreground or the background.
pub open spec fn char_pixel(glyph: Seq<u8>, scale: int, px: int, py: int, fg: u32, bg: u32) -> u32 {
    if (glyph[py / scale] >> ((px / scale) as u8)) & 1 != 0 {
        fg
    } else {
        bg
    }
}

/// The screen after the first `k` pixels of glyph row `py` were drawn at
/// cell origin (`x`, `y`).
pub open spec fn draw_char_row(
    screen: Seq<u32>,
    glyph: Seq<u8>,
    scale: int,
    x: int,
    y: int,
    py: int,
    fg: u32,
    bg: u32,
    k: int,
) -> Seq<u32>
    decreases k,
{
    if k <= 0 {
        screen
    } else {
        put_pixel(
            draw_char_row(screen, glyph, scale, x, y, py, fg, bg, k - 1),
            x + (k - 1),
            y + py,
            char_pixel(glyph, scale, k - 1, py, fg, bg),
        )
    }
}

/// The screen after the first `m` pixel rows of a glyph were drawn at
/// cell origin (`x`, `y`).
pub open spec fn draw_char_rows(
    screen: Seq<u32>,
    glyph: Seq<u8>,
    scale: int,
    x: int,
    y: int,
    fg: u32,
    bg: u32,
    m: int,
) -> Seq<u32>
    decreases m,
{
    if m <= 0 {
        screen
    } else {
        draw_char_row(
            draw_char_rows(screen, glyph, scale, x, y, fg, bg, m - 1),
            glyph,
            scale,
            x,
            y,
            m - 1,
            fg,
            bg,
            BASE_FONT_WIDTH * scale,
        )
    }
}

/// The screen after a whole glyph was drawn at cell origin (`x`, `y`),
/// clipped at the screen edges.
pub open spec fn draw_char_at(
    screen: Seq<u32>,
    glyph: Seq<u8>,
    scale: int,
    x: int,
    y: int,
    fg: u32,
    bg: u32,
) -> Seq<u32> {
    draw_char_rows(screen, glyph, scale, x, y, fg, bg, BASE_FONT_HEIGHT * scale)
}

/// The screen scrolled up by `row_pixels` pixels, the freed bottom band
/// filled with `bg`.
pub open spec fn scrolled(screen: Seq<u32>, row_pixels: int, bg: u32) -> Seq<u32> {
    Seq::new(screen.len(), |i: int|
        if i < screen.len() - row_pixels {
            screen[i + row_pixels]
        } else {
            bg
        })
}

/// The state after a line break: column zero, next row, scrolling one
/// text line when the cursor would leave the grid.
pub open spec fn after_new_line(v: VgaView) -> VgaView {
    if v.cursor_y + 1 >= v.max_rows {
        VgaView {
            cursor_x: 0,
            cursor_y: v.max_rows - 1,
            screen: scrolled(v.screen, font_h(v) * SCREEN_WIDTH, v.bg),
            ..v
        }
    } else {
        VgaView { cursor_x: 0, cursor_y: v.cursor_y + 1, ..v }
    }
}


/// Name for what the basic font returns: the 8-byte glyph of a
/// character, a function of the character alone.
pub uninterp spec fn glyph_of(c: char) -> Seq<u8>;

/// Relies on font8x8's basic font collection: `get` returns the 8-byte
/// glyph of every character of the basic Unicode block (code points
/// below 128) and nothing for any other character, and the glyph depends
/// on the character alone.
#[verifier::external_body]
fn basic_glyph(b: u8) -> (r: Option<[u8; 8]>)
    ensures
        r is Some <==> b < 128,
        r matches Some(g) ==> g@ == glyph_of(b as char),
{
    font8x8::UnicodeFonts::get(&font8x8::BASIC_FONTS, b as char)
}

/// The glyph the console renders for byte `b`: the byte's own glyph
/// inside the basic block, the question-mark glyph outside it.
pub open spec fn glyph_used(b: u8) -> Seq<u8> {
    if b < 128 {
        glyph_of(b as char)
    } else {
        glyph_of(0x3Fu8 as char)
    }
}

/// The state after one visible byte: wrap to a fresh line when the
/// column rests past the last cell, draw the glyph at the cursor cell,
/// and advance the column.
pub open spec fn after_visible(v: VgaView, b: u8) -> VgaView {
    let v1 = if v.cursor_x >= v.max_cols {
        after_new_line(v)
    } else {
        v
    };
    VgaView {
        cursor_x: v1.cursor_x + 1,
        screen: draw_char_at(
            v1.screen,
            glyph_used(b),
            v1.font_scale,
            v1.cursor_x * font_w(v1),
            v1.cursor_y * font_h(v1),
            v1.fg,
            v1.bg,
        ),
        ..v1
    }
}

/// The state after `n` spaces were written.
pub open spec fn put_spaces(v: VgaView, n: nat) -> VgaView
    decreases n,
{
    if n == 0 {
        v
    } else {
        put_spaces(after_visible(v, 0x20), (n - 1) as nat)
    }
}

/// The state after one SGR (Select Graphic Rendition) parameter:
/// parameter 0 resets both colours, the colour codes select foreground
/// or background, 39 and 49 restore one default, everything else is
/// ignored.
pub open spec fn sgr_apply(v: VgaView, p: u8) -> VgaView {
    if p == 0 {
        VgaView { fg: v.default_fg, bg: v.default_bg, ..v }
    } else if 30 <= p <= 37 || 90 <= p <= 97 {
        match spec_ansi_to_rgb(p) {
            Some(c) => VgaView { fg: c, ..v },
            None => v,
        }
    } else if 40 <= p <= 47 || 100 <= p <= 107 {
        match spec_ansi_to_rgb(p) {
            Some(c) => VgaView { bg: c, ..v },
            None => v,
        }
    } else if p == 39 {
        VgaView { fg: v.default_fg, ..v }
    } else if p == 49 {
        VgaView { bg: v.default_bg, ..v }
    } else {
        v
    }
}

/// The escape parameter after digit byte `b`, accumulated decimally and
/// saturating at the register width.
pub open spec fn next_param(p: u8, b: u8) -> u8 {
    let m: int = if p * 10 > 255 {
        255
    } else {
        p * 10
    };
    let a: int = if m + (b - 0x30) > 255 {
        255
    } else {
        m + (b - 0x30)
    };
    a as u8
}

/// The state after the console processed byte `b` (without caching it):
/// the full per-byte machine over the escape parser state.
pub open spec fn step(v: VgaView, b: u8) -> VgaView {
    match v.ansi {
        AnsiState::Normal => {
            if b == 0x1B {
                VgaView { ansi: AnsiState::Escape, ..v }
            } else if b == 0x0A {
                after_new_line(v)
            } else if b == 0x0D {
                VgaView { cursor_x: 0, ..v }
            } else if b == 0x09 {
                put_spaces(v, (4 - (v.cursor_x % 4)) as nat)
            } else {
                after_visible(v, b)
            }
        },
        AnsiState::Escape => {
            if b == 0x5B {
                VgaView { ansi: AnsiState::Csi, param: 0, ..v }
            } else {
                VgaView { ansi: AnsiState::Normal, ..v }
            }
        },
        AnsiState::Csi => {
            if 0x30 <= b <= 0x39 {
                VgaView { param: next_param(v.param, b), ..v }
            } else if b == 0x3B {
                VgaView { param: 0, ..sgr_apply(v, v.param) }
            } else if b == 0x6D {
                VgaView { ansi: AnsiState::Normal, param: 0, ..sgr_apply(v, v.param) }
            } else {
                VgaView { ansi: AnsiState::Normal, param: 0, ..v }
            }
        },
    }
}

/// The state after the console accepted byte `b`: the byte is cached in
/// the log and then processed.
pub open spec fn write_step(v: VgaView, b: u8) -> VgaView {
    step(VgaView { log: log_appended(v.log, b), ..v }, b)
}

/// The state after the console accepted every byte of `s`, in order.
pub open spec fn write_seq(v: VgaView, s: Seq<u8>) -> VgaView
    decreases s.len(),
{
    if s.len() == 0 {
        v
    } else {
        write_step(write_seq(v, s.drop_last()), s.last())
    }
}

/// The state after every byte of `s` was processed without caching.
pub open spec fn replay(v: VgaView, s: Seq<u8>) -> VgaView
    decreases s.len(),
{
    if s.len() == 0 {
        v
    } else {
        step(replay(v, s.drop_last()), s.last())
    }
}

/// The state a redraw starts from: home cursor, default colours, parser
/// reset, screen cleared to the default background; log and grid kept.
pub open spec fn reset_for_redraw(v: VgaView) -> VgaView {
    VgaView {
        cursor_x: 0,
        cursor_y: 0,
        fg: v.default_fg,
        bg: v.default_bg,
        ansi: AnsiState::Normal,
        param: 0,
        screen: filled(SCREEN_PIXELS as int, v.default_bg),
        ..v
    }
}

/// The state a fresh console starts in at scale `scale` (zero is raised
/// to one): home cursor, default colours, black screen, empty log.
pub open spec fn initial_view(scale: int) -> VgaView {
    let s = if scale == 0 {
        1
    } else {
        scale
    };
    VgaView {
        screen: filled(SCREEN_PIXELS as int, BG_COLOR),
        cursor_x: 0,
        cursor_y: 0,
        font_scale: s,
        max_cols: SCREEN_WIDTH as int / (BASE_FONT_WIDTH * s),
        max_rows: SCREEN_HEIGHT as int / (BASE_FONT_HEIGHT * s),
        fg: FG_COLOR,
        bg: BG_COLOR,
        default_fg: FG_COLOR,
        default_bg: BG_COLOR,
        log: Seq::empty(),
        ansi: AnsiState::Normal,
        param: 0,
    }
}

/// A positive divisor no larger than the dividend divides at least once.
proof fn lemma_div_at_least_one(x: int, d: int)
    requires
        0 < d <= x,
    ensures
        x / d >= 1,
{
    lemma_fundamental_div_mod(x, d);
    lemma_mod_bound(x, d);
}

/// Multiplying a quotient back never exceeds the dividend.
proof fn lemma_div_times_divisor_le(x: int, d: int)
    requires
        0 < d,
        0 <= x,
    ensures
        (x / d) * d <= x,
        x / d >= 0,
{
    lemma_fundamental_div_mod(x, d);
    lemma_mod_bound(x, d);
    vstd::arithmetic::div_mod::lemma_div_pos_is_pos(x, d);
    assert((x / d) * d == d * (x / d)) by (nonlinear_arith);
}

/// The rescaled state: the grid is recomputed for the new scale and the
/// cursor is clamped back into it.
pub open spec fn rescaled(v: VgaView, scale: int) -> VgaView {
    let s = if scale == 0 {
        1
    } else {
        scale
    };
    let cols = SCREEN_WIDTH as int / (BASE_FONT_WIDTH * s);
    let rows = SCREEN_HEIGHT as int / (BASE_FONT_HEIGHT * s);
    VgaView {
        font_scale: s,
        max_cols: cols,
        max_rows: rows,
        cursor_x: if v.cursor_x >= cols {
            cols - 1
        } else {
            v.cursor_x
        },
        cursor_y: if v.cursor_y >= rows {
            rows - 1
        } else {
            v.cursor_y
        },
        ..v
    }
}

/// VGA console with scrolling, configurable font size, and log buffer.
pub struct VgaConsole {
    base_addr: u64,
    screen: Vec<u32>,
    cursor_x: usize,
    cursor_y: usize,
    font_scale: usize,
    max_cols: usize,
    max_rows: usize,
    fg_color: u32,
    bg_color: u32,
    default_fg_color: u32,
    default_bg_color: u32,
    log_buffer: LogBuffer,
    ansi_state: AnsiState,
    ansi_param: u8,
}

impl View for VgaConsole {
    type V = VgaView;

    closed spec fn view(&self) -> VgaView {
        VgaView {
            screen: self.screen@,
            cursor_x: self.cursor_x as int,
            cursor_y: self.cursor_y as int,
            font_scale: self.font_scale as int,
            max_cols: self.max_cols as int,
            max_rows: self.max_rows as int,
            fg: self.fg_color,
            bg: self.bg_color,
            default_fg: self.default_fg_color,
            default_bg: self.default_bg_color,
            log: self.log_buffer@,
            ansi: self.ansi_state,
            param: self.ansi_param,
        }
    }
}

impl VgaConsole {
    /// A console is well formed when its abstract state is and its log
    /// ring is intact.
    pub closed spec fn wf(&self) -> bool {
        &&& view_wf(self@)
        &&& self.log_buffer.wf()
    }

    /// Framebuffer base address the console was created with.
    pub closed spec fn base_addr(&self) -> u64 {
        self.base_addr
    }

    /// Creates a new console for the framebuffer window at `base_addr`
    /// with the given font scale; scale zero is raised to one.  Scales
    /// beyond [`MAX_FONT_SCALE`] would leave no character cell on the
    /// screen and are rejected.
    pub fn new(base_addr: u64, font_scale: usize) -> (c: Self)
        requires
            font_scale <= MAX_FONT_SCALE,
        ensures
            c.wf(),
            c@ == initial_view(font_scale as int),
            c.base_addr() == base_addr,
    {
        let scale = if font_scale == 0 {
            1
        } else {
            font_scale
        };
        let font_width = BASE_FONT_WIDTH * scale;
        let font_height = BASE_FONT_HEIGHT * scale;
        let mut screen: Vec<u32> = Vec::new();
        for i in 0..SCREEN_PIXELS
            invariant
                screen@.len() == i,
                forall|j: int| 0 <= j < i ==> screen@[j] == BG_COLOR,
        {
            screen.push(BG_COLOR);
        }
        proof {
            assert(screen@ =~= filled(SCREEN_PIXELS as int, BG_COLOR));
            lemma_div_at_least_one(SCREEN_WIDTH as int, font_width as int);
            lemma_div_at_least_one(SCREEN_HEIGHT as int, font_height as int);
        }
        let c = VgaConsole {
            base_addr,
            screen,
            cursor_x: 0,
            cursor_y: 0,
            font_scale: scale,
            max_cols: SCREEN_WIDTH / font_width,
            max_rows: SCREEN_HEIGHT / font_height,
            fg_color: FG_COLOR,
            bg_color: BG_COLOR,
            default_fg_color: FG_COLOR,
            default_bg_color: BG_COLOR,
            log_buffer: LogBuffer::new(),
            ansi_state: AnsiState::Normal,
            ansi_param: 0,
        };
        proof {
            assert(c@ =~= initial_view(font_scale as int));
        }
        c
    }

    /// Returns the current font width in pixels.
    fn font_width(&self) -> (w: usize)
        requires
            self.wf(),
        ensures
            w == font_w(self@),
    {
        BASE_FONT_WIDTH * self.font_scale
    }

    /// Returns the current font height in pixels.
    fn font_height(&self) -> (h: usize)
        requires
            self.wf(),
        ensures
            h == font_h(self@),
    {
        BASE_FONT_HEIGHT * self.font_scale
    }

    /// Sets the foreground colour.
    pub fn set_fg_color(&mut self, color: u32)
        requires
            old(self).wf(),
        ensures
            final(self).wf(),
            final(self)@ == (VgaView { fg: color, ..old(self)@ }),
    {
        self.fg_color = color;
    }

    /// Sets the background colour.
    pub fn set_bg_color(&mut self, color: u32)
        requires
            old(self).wf(),
        ensures
            final(self).wf(),
            final(self)@ == (VgaView { bg: color, ..old(self)@ }),
    {
        self.bg_color = color;
    }

    /// Framebuffer base address the console was created with, for the
    /// caller that blits.
    pub fn base_address(&self) -> (a: u64)
        ensures
            a == self.base_addr(),
    {
        self.base_addr
    }

    /// The drawn pixels, row-major, for the caller that blits.
    pub fn screen_pixels(&self) -> (p: &Vec<u32>)
        ensures
            p@ == self@.screen,
    {
        &self.screen
    }

    /// Current cursor cell, column then row.
    pub fn cursor_position(&self) -> (r: (usize, usize))
        requires
            self.wf(),
        ensures
            r.0 == self@.cursor_x,
            r.1 == self@.cursor_y,
    {
        (self.cursor_x, self.cursor_y)
    }

    /// The drawn pixel at screen position (`x`, `y`).
    pub fn pixel(&self, x: usize, y: usize) -> (c: u32)
        requires
            self.wf(),
            x < SCREEN_WIDTH,
            y < SCREEN_HEIGHT,
        ensures
            c == self@.screen[y * SCREEN_WIDTH + x],
    {
        proof {
            assert(y * SCREEN_WIDTH + x < SCREEN_PIXELS) by (nonlinear_arith)
                requires
                    x < SCREEN_WIDTH,
                    y < SCREEN_HEIGHT,
            ;
        }
        self.screen[y * SCREEN_WIDTH + x]
    }

    /// Returns the number of cached log bytes.
    pub fn log_buffer_len(&self) -> (n: usize)
        requires
            self.wf(),
        ensures
            n == self@.log.len(),
    {
        self.log_buffer.len()
    }

    /// Clears the entire screen to the background colour and homes the
    /// cursor.
    pub fn clear(&mut self)
        requires
            old(self).wf(),
        ensures
            final(self).wf(),
            final(self)@ == (VgaView {
                screen: filled(SCREEN_PIXELS as int, old(self)@.bg),
                cursor_x: 0,
                cursor_y: 0,
                ..old(self)@
            }),
    {
        let mut i: usize = 0;
        while i < SCREEN_PIXELS
            invariant
                old(self).wf(),
                self.screen@.len() == SCREEN_PIXELS,
                i <= SCREEN_PIXELS,
                forall|j: int| 0 <= j < i ==> self.screen@[j] == old(self)@.bg,
                self.cursor_x == old(self).cursor_x,
                self.cursor_y == old(self).cursor_y,
                self.font_scale == old(self).font_scale,
                self.max_cols == old(self).max_cols,
                self.max_rows == old(self).max_rows,
                self.fg_color == old(self).fg_color,
                self.bg_color == old(self).bg_color,
                self.default_fg_color == old(self).default_fg_color,
                self.default_bg_color == old(self).default_bg_color,
                self.log_buffer == old(self).log_buffer,
                self.ansi_state == old(self).ansi_state,
                self.ansi_param == old(self).ansi_param,
                self.base_addr == old(self).base_addr,
            decreases SCREEN_PIXELS - i,
        {
            self.screen.set(i, self.bg_color);
            i += 1;
        }
        self.cursor_x = 0;
        self.cursor_y = 0;
        proof {
            assert(self@.screen =~= filled(SCREEN_PIXELS as int, old(self)@.bg));
            assert(self@ =~= (VgaView {
                screen: filled(SCREEN_PIXELS as int, old(self)@.bg),
                cursor_x: 0,
                cursor_y: 0,
                ..old(self)@
            }));
        }
    }

    /// Sets the font scale (1 = 8x8, 2 = 16x16, and so on; zero is
    /// raised to one), recomputes the cell grid and clamps the cursor
    /// back into it.
    pub fn set_font_scale(&mut self, scale: usize)
        requires
            old(self).wf(),
            scale <= MAX_FONT_SCALE,
        ensures
            final(self).wf(),
            final(self)@ == rescaled(old(self)@, scale as int),
    {
        let scale = if scale == 0 {
            1
        } else {
            scale
        };
        self.font_scale = scale;
        let font_width = BASE_FONT_WIDTH * scale;
        let font_height = BASE_FONT_HEIGHT * scale;
        proof {
            lemma_div_at_least_one(SCREEN_WIDTH as int, font_width as int);
            lemma_div_at_least_one(SCREEN_HEIGHT as int, font_height as int);
        }
        self.max_cols = SCREEN_WIDTH / font_width;
        self.max_rows = SCREEN_HEIGHT / font_height;
        if self.cursor_x >= self.max_cols {
            self.cursor_x = self.max_cols - 1;
        }
        if self.cursor_y >= self.max_rows {
            self.cursor_y = self.max_rows - 1;
        }
        proof {
            assert(self@ =~= rescaled(old(self)@, scale as int));
        }
    }

    /// Process one ANSI SGR (Select Graphic Rendition) parameter.
    fn process_ansi_sgr(&mut self, param: u8)
        requires
            old(self).wf(),
        ensures
            final(self).wf(),
            final(self).log_buffer == old(self).log_buffer,
            final(self)@ == sgr_apply(old(self)@, param),
    {
        if param == 0 {
            self.fg_color = self.default_fg_color;
            self.bg_color = self.default_bg_color;
        } else if (30 <= param && param <= 37) || (90 <= param && param <= 97) {
            if let Some(color) = ansi_to_rgb(param) {
                self.fg_color = color;
            }
        } else if (40 <= param && param <= 47) || (100 <= param && param <= 107) {
            if let Some(color) = ansi_to_rgb(param) {
                self.bg_color = color;
            }
        } else if param == 39 {
            self.fg_color = self.default_fg_color;
        } else if param == 49 {
            self.bg_color = self.default_bg_color;
        }
        proof {
            assert(self@ =~= sgr_apply(old(self)@, param));
        }
    }

    /// Draws a single pixel, clipped at the screen edges.
    fn draw_pixel(&mut self, x: usize, y: usize, color: u32)
        requires
            old(self)@.screen.len() == SCREEN_PIXELS,
        ensures
            final(self).log_buffer == old(self).log_buffer,
            final(self).base_addr() == old(self).base_addr(),
            final(self)@ == (VgaView {
                screen: put_pixel(old(self)@.screen, x as int, y as int, color),
                ..old(self)@
            }),
    {
        if x >= SCREEN_WIDTH || y >= SCREEN_HEIGHT {
            proof {
                assert(self@ =~= (VgaView {
                    screen: put_pixel(old(self)@.screen, x as int, y as int, color),
                    ..old(self)@
                }));
            }
            return;
        }
        proof {
            assert(y * SCREEN_WIDTH + x < SCREEN_PIXELS) by (nonlinear_arith)
                requires
                    x < SCREEN_WIDTH,
                    y < SCREEN_HEIGHT,
            ;
        }
        let offset = y * SCREEN_WIDTH + x;
        self.screen.set(offset, color);
        proof {
            assert(self@ =~= (VgaView {
                screen: put_pixel(old(self)@.screen, x as int, y as int, color),
                ..old(self)@
            }));
        }
    }

    /// Scrolls the screen up by one text line and clears the freed
    /// bottom band to the background colour.  Only the shape of the
    /// screen and the scale are needed, so a caller may scroll while its
    /// cursor sits one row past the grid.
    fn scroll_up(&mut self)
        requires
            old(self)@.screen.len() == SCREEN_PIXELS,
            1 <= old(self)@.font_scale <= MAX_FONT_SCALE,
        ensures
            final(self).log_buffer == old(self).log_buffer,
            final(self)@ == (VgaView {
                screen: scrolled(old(self)@.screen, font_h(old(self)@) * SCREEN_WIDTH, old(
                    self,
                )@.bg),
                ..old(self)@
            }),
    {
        let font_height = BASE_FONT_HEIGHT * self.font_scale;
        proof {
            assert(font_height * SCREEN_WIDTH <= SCREEN_PIXELS) by (nonlinear_arith)
                requires
                    font_height <= 8 * MAX_FONT_SCALE,
            ;
        }
        let row_pixels = font_height * SCREEN_WIDTH;
        let move_pixels = SCREEN_PIXELS - row_pixels;
        let mut i: usize = 0;
        while i < move_pixels
            invariant
                self.screen@.len() == SCREEN_PIXELS,
                row_pixels + move_pixels == SCREEN_PIXELS,
                i <= move_pixels,
                forall|j: int| 0 <= j < i ==> self.screen@[j] == old(self)@.screen[j + row_pixels],
                forall|j: int| i <= j < SCREEN_PIXELS ==> self.screen@[j] == old(self)@.screen[j],
                self.log_buffer == old(self).log_buffer,
                unchanged_but_screen(*self, *old(self)),
            decreases move_pixels - i,
        {
            let p = self.screen[i + row_pixels];
            self.screen.set(i, p);
            i += 1;
        }
        let mut j: usize = move_pixels;
        while j < SCREEN_PIXELS
            invariant
                self.screen@.len() == SCREEN_PIXELS,
                row_pixels + move_pixels == SCREEN_PIXELS,
                move_pixels <= j <= SCREEN_PIXELS,
                forall|k: int| 0 <= k < move_pixels ==> self.screen@[k] == old(self)@.screen[k
                    + row_pixels],
                forall|k: int| move_pixels <= k < j ==> self.screen@[k] == old(self)@.bg,
                forall|k: int| j <= k < SCREEN_PIXELS ==> self.screen@[k] == old(self)@.screen[k],
                self.log_buffer == old(self).log_buffer,
                unchanged_but_screen(*self, *old(self)),
            decreases SCREEN_PIXELS - j,
        {
            self.screen.set(j, self.bg_color);
            j += 1;
        }
        proof {
            assert(self@.screen =~= scrolled(old(self)@.screen, row_pixels as int, old(self)@.bg));
            assert(self@ =~= (VgaView {
                screen: scrolled(old(self)@.screen, font_h(old(self)@) * SCREEN_WIDTH, old(
                    self,
                )@.bg),
                ..old(self)@
            }));
        }
    }

    /// Moves to a new line, scrolling when the cursor would leave the
    /// grid.
    fn new_line(&mut self)
        requires
            old(self).wf(),
        ensures
            final(self).wf(),
            final(self).log_buffer == old(self).log_buffer,
            final(self)@ == after_new_line(old(self)@),
    {
        self.cursor_x = 0;
        self.cursor_y = self.cursor_y + 1;
        if self.cursor_y >= self.max_rows {
            self.scroll_up();
            self.cursor_y = self.max_rows - 1;
        }
        proof {
            assert(self@ =~= after_new_line(old(self)@));
        }
    }
}

/// Every field of a console except the screen is unchanged.
spec fn unchanged_but_screen(a: VgaConsole, b: VgaConsole) -> bool {
    &&& a@.cursor_x == b@.cursor_x
    &&& a@.cursor_y == b@.cursor_y
    &&& a@.font_scale == b@.font_scale
    &&& a@.max_cols == b@.max_cols
    &&& a@.max_rows == b@.max_rows
    &&& a@.fg == b@.fg
    &&& a@.bg == b@.bg
    &&& a@.default_fg == b@.default_fg
    &&& a@.default_bg == b@.default_bg
    &&& a@.log == b@.log
    &&& a@.ansi == b@.ansi
    &&& a@.param == b@.param
    &&& a.base_addr() == b.base_addr()
}


/// One clipped pixel write keeps the screen size.
proof fn lemma_put_pixel_len(screen: Seq<u32>, x: int, y: int, c: u32)
    requires
        screen.len() == SCREEN_PIXELS,
    ensures
        put_pixel(screen, x, y, c).len() == screen.len(),
{
    if 0 <= x < SCREEN_WIDTH && 0 <= y < SCREEN_HEIGHT {
        assert(0 <= y * SCREEN_WIDTH + x < SCREEN_PIXELS) by (nonlinear_arith)
            requires
                0 <= x < SCREEN_WIDTH,
                0 <= y < SCREEN_HEIGHT,
        ;
    }
}

/// Drawing a partial glyph row keeps the screen size.
proof fn lemma_draw_char_row_len(
    screen: Seq<u32>,
    glyph: Seq<u8>,
    scale: int,
    x: int,
    y: int,
    py: int,
    fg: u32,
    bg: u32,
    k: int,
)
    requires
        screen.len() == SCREEN_PIXELS,
    ensures
        draw_char_row(screen, glyph, scale, x, y, py, fg, bg, k).len() == screen.len(),
    decreases k,
{
    if k > 0 {
        lemma_draw_char_row_len(screen, glyph, scale, x, y, py, fg, bg, k - 1);
        lemma_put_pixel_len(
            draw_char_row(screen, glyph, scale, x, y, py, fg, bg, k - 1),
            x + (k - 1),
            y + py,
            char_pixel(glyph, scale, k - 1, py, fg, bg),
        );
    }
}

/// Drawing the first rows of a glyph keeps the screen size.
proof fn lemma_draw_char_rows_len(
    screen: Seq<u32>,
    glyph: Seq<u8>,
    scale: int,
    x: int,
    y: int,
    fg: u32,
    bg: u32,
    m: int,
)
    requires
        screen.len() == SCREEN_PIXELS,
    ensures
        draw_char_rows(screen, glyph, scale, x, y, fg, bg, m).len() == screen.len(),
    decreases m,
{
    if m > 0 {
        lemma_draw_char_rows_len(screen, glyph, scale, x, y, fg, bg, m - 1);
        lemma_draw_char_row_len(
            draw_char_rows(screen, glyph, scale, x, y, fg, bg, m - 1),
            glyph,
            scale,
            x,
            y,
            m - 1,
            fg,
            bg,
            BASE_FONT_WIDTH * scale,
        );
    }
}

impl VgaConsole {
    /// Draws the glyph of `byte` with its cell origin at pixel (`x`,
    /// `y`), clipped at the screen edges.
    fn draw_char(&mut self, byte: u8, x: usize, y: usize, fg: u32, bg: u32)
        requires
            old(self)@.screen.len() == SCREEN_PIXELS,
            1 <= old(self)@.font_scale <= MAX_FONT_SCALE,
            x <= SCREEN_WIDTH,
            y <= SCREEN_HEIGHT,
        ensures
            final(self).log_buffer == old(self).log_buffer,
            final(self)@ == (VgaView {
                screen: draw_char_at(
                    old(self)@.screen,
                    glyph_used(byte),
                    old(self)@.font_scale,
                    x as int,
                    y as int,
                    fg,
                    bg,
                ),
                ..old(self)@
            }),
    {
        let glyph: [u8; 8] = match basic_glyph(byte) {
            Some(g) => g,
            None => basic_glyph(0x3F).unwrap(),
        };
        let scale = self.font_scale;
        let side = BASE_FONT_WIDTH * scale;
        let ghost g = glyph@;
        let ghost base = self.screen@;
        proof {
            assert(g == glyph_used(byte));
        }
        let mut py: usize = 0;
        while py < side
            invariant
                side == BASE_FONT_WIDTH * scale,
                scale == old(self)@.font_scale,
                1 <= scale <= MAX_FONT_SCALE,
                x <= SCREEN_WIDTH,
                y <= SCREEN_HEIGHT,
                py <= side,
                g == glyph@,
                g == glyph_used(byte),
                base == old(self)@.screen,
                base.len() == SCREEN_PIXELS,
                self.screen@.len() == SCREEN_PIXELS,
                self.screen@ == draw_char_rows(base, g, scale as int, x as int, y as int, fg, bg, py as int),
                self.font_scale == old(self).font_scale,
                self.log_buffer == old(self).log_buffer,
                unchanged_but_screen(*self, *old(self)),
            decreases side - py,
        {
            let ghost rows_base = draw_char_rows(base, g, scale as int, x as int, y as int, fg, bg, py as int);
            let row_index = py / scale;
            proof {
                vstd::arithmetic::div_mod::lemma_multiply_divide_lt(py as int, scale as int, BASE_FONT_WIDTH as int);
            }
            let gl_row = *vstd::array::array_index_get(&glyph, row_index);

            let mut px: usize = 0;
            while px < side
                invariant
                    side == BASE_FONT_WIDTH * scale,
                    scale == old(self)@.font_scale,
                    1 <= scale <= MAX_FONT_SCALE,
                    x <= SCREEN_WIDTH,
                    y <= SCREEN_HEIGHT,
                    py < side,
                    px <= side,
                    row_index == py as int / scale as int,
                    g == glyph@,
                    base == old(self)@.screen,
                    gl_row == g[py as int / scale as int],
                    base.len() == SCREEN_PIXELS,
                    self.screen@.len() == SCREEN_PIXELS,
                    rows_base == draw_char_rows(base, g, scale as int, x as int, y as int, fg, bg, py as int),
                    self.screen@ == draw_char_row(rows_base, g, scale as int, x as int, y as int, py as int, fg, bg, px as int),
                    self.font_scale == old(self).font_scale,
                    self.log_buffer == old(self).log_buffer,
                    unchanged_but_screen(*self, *old(self)),
                decreases side - px,
            {
                let col = px / scale;
                proof {
                    vstd::arithmetic::div_mod::lemma_multiply_divide_lt(px as int, scale as int, BASE_FONT_WIDTH as int);
                }
                let bit = (gl_row >> (col as u8)) & 1;
                let color = if bit != 0 {
                    fg
                } else {
                    bg
                };
                proof {
                    assert(color == char_pixel(g, scale as int, px as int, py as int, fg, bg));
                }
                self.draw_pixel(x + px, y + py, color);
                proof {
                    assert(self.screen@ == draw_char_row(rows_base, g, scale as int, x as int, y as int, py as int, fg, bg, px as int + 1));
                }
                px += 1;
            }
            proof {
                assert(draw_char_rows(base, g, scale as int, x as int, y as int, fg, bg, py as int + 1)
                    == draw_char_row(rows_base, g, scale as int, x as int, y as int, py as int, fg, bg, BASE_FONT_WIDTH * scale as int));
            }
            py += 1;
        }
        proof {
            assert(self@ =~= (VgaView {
                screen: draw_char_at(
                    old(self)@.screen,
                    glyph_used(byte),
                    old(self)@.font_scale,
                    x as int,
                    y as int,
                    fg,
                    bg,
                ),
                ..old(self)@
            }));
        }
    }

    /// Writes one visible character at the cursor, wrapping to a fresh
    /// line first when the column rests past the last cell.
    fn write_visible_char(&mut self, byte: u8)
        requires
            old(self).wf(),
        ensures
            final(self).wf(),
            final(self).log_buffer == old(self).log_buffer,
            final(self)@ == after_visible(old(self)@, byte),
    {
        if self.cursor_x >= self.max_cols {
            self.new_line();
        }
        let font_width = self.font_width();
        let font_height = self.font_height();
        proof {
            lemma_div_times_divisor_le(SCREEN_WIDTH as int, font_width as int);
            lemma_div_times_divisor_le(SCREEN_HEIGHT as int, font_height as int);
            assert(self.cursor_x * font_width <= SCREEN_WIDTH) by (nonlinear_arith)
                requires
                    self.cursor_x < self@.max_cols,
                    self@.max_cols * font_width <= SCREEN_WIDTH,
                    font_width >= 0,
                    self@.max_cols == self.max_cols,
                    self.cursor_x >= 0,
            ;
            assert(self.cursor_y * font_height <= SCREEN_HEIGHT) by (nonlinear_arith)
                requires
                    self.cursor_y < self@.max_rows,
                    self@.max_rows * font_height <= SCREEN_HEIGHT,
                    font_height >= 0,
                    self@.max_rows == self.max_rows,
                    self.cursor_y >= 0,
            ;
        }
        let x = self.cursor_x * font_width;
        let y = self.cursor_y * font_height;
        let fg = self.fg_color;
        let bg = self.bg_color;
        let ghost before_draw = self@;
        self.draw_char(byte, x, y, fg, bg);
        self.cursor_x = self.cursor_x + 1;
        proof {
            lemma_draw_char_rows_len(
                before_draw.screen,
                glyph_used(byte),
                before_draw.font_scale,
                x as int,
                y as int,
                fg,
                bg,
                BASE_FONT_HEIGHT * before_draw.font_scale,
            );
            assert(self@ =~= after_visible(old(self)@, byte));
        }
    }

    /// Processes one byte without caching it: the per-byte machine of
    /// the console, shared between writing and log replay.
    fn step_byte(&mut self, byte: u8)
        requires
            old(self).wf(),
        ensures
            final(self).wf(),
            final(self).log_buffer == old(self).log_buffer,
            final(self)@ == step(old(self)@, byte),
    {
        match self.ansi_state {
            AnsiState::Normal => {
                if byte == 0x1B {
                    self.ansi_state = AnsiState::Escape;
                } else if byte == 0x0A {
                    self.new_line();
                } else if byte == 0x0D {
                    self.cursor_x = 0;
                } else if byte == 0x09 {
                    let spaces = 4 - (self.cursor_x % 4);
                    let ghost v0 = self@;
                    let mut k: usize = 0;
                    while k < spaces
                        invariant
                            self.wf(),
                            k <= spaces,
                            spaces <= 4,
                            self@ == put_spaces(v0, k as nat),
                            self.log_buffer == old(self).log_buffer,
                        decreases spaces - k,
                    {
                        self.write_visible_char(0x20);
                        proof {
                            lemma_put_spaces_snoc(v0, k as nat);
                        }
                        k += 1;
                    }
                } else {
                    self.write_visible_char(byte);
                }
            },
            AnsiState::Escape => {
                if byte == 0x5B {
                    self.ansi_state = AnsiState::Csi;
                    self.ansi_param = 0;
                } else {
                    self.ansi_state = AnsiState::Normal;
                }
            },
            AnsiState::Csi => {
                if 0x30 <= byte && byte <= 0x39 {
                    let m = if self.ansi_param > 25 {
                        255
                    } else {
                        self.ansi_param * 10
                    };
                    let d = byte - 0x30;
                    let a = if m > 255 - d {
                        255
                    } else {
                        m + d
                    };
                    self.ansi_param = a;
                } else if byte == 0x3B {
                    let p = self.ansi_param;
                    self.process_ansi_sgr(p);
                    self.ansi_param = 0;
                } else if byte == 0x6D {
                    let p = self.ansi_param;
                    self.process_ansi_sgr(p);
                    self.ansi_state = AnsiState::Normal;
                    self.ansi_param = 0;
                } else {
                    self.ansi_state = AnsiState::Normal;
                    self.ansi_param = 0;
                }
            },
        }
        proof {
            assert(self@ =~= step(old(self)@, byte));
        }
    }

    /// Writes a single byte to the console: the byte is cached in the
    /// log buffer and then processed with ANSI escape support.
    pub fn write_byte(&mut self, byte: u8)
        requires
            old(self).wf(),
        ensures
            final(self).wf(),
            final(self)@ == write_step(old(self)@, byte),
    {
        self.log_buffer.push(byte);
        proof {
            assert(self@ =~= (VgaView { log: log_appended(old(self)@.log, byte), ..old(self)@ }));
        }
        self.step_byte(byte);
    }

    /// Writes a slice of bytes to the console, in order.
    pub fn write_bytes(&mut self, s: &Vec<u8>)
        requires
            old(self).wf(),
        ensures
            final(self).wf(),
            final(self)@ == write_seq(old(self)@, s@),
    {
        let n = s.len();
        for i in 0..n
            invariant
                n == s@.len(),
                self.wf(),
                self@ == write_seq(old(self)@, s@.take(i as int)),
        {
            proof {
                assert(s@.take(i + 1).drop_last() =~= s@.take(i as int));
                assert(s@.take(i + 1).last() == s@[i as int]);
            }
            self.write_byte(s[i]);
        }
        proof {
            assert(s@.take(n as int) =~= s@);
        }
    }

    /// Redraws the screen from the log buffer (useful after a font size
    /// change): the console state and screen are reset and every cached
    /// byte is replayed, with ANSI escape support, without re-caching.
    pub fn redraw_from_log(&mut self)
        requires
            old(self).wf(),
        ensures
            final(self).wf(),
            final(self)@ == replay(reset_for_redraw(old(self)@), old(self)@.log),
    {
        self.cursor_x = 0;
        self.cursor_y = 0;
        self.fg_color = self.default_fg_color;
        self.bg_color = self.default_bg_color;
        self.ansi_state = AnsiState::Normal;
        self.ansi_param = 0;
        let mut i: usize = 0;
        while i < SCREEN_PIXELS
            invariant
                self.screen@.len() == SCREEN_PIXELS,
                i <= SCREEN_PIXELS,
                forall|j: int| 0 <= j < i ==> self.screen@[j] == old(self)@.default_bg,
                self.cursor_x == 0,
                self.cursor_y == 0,
                self.fg_color == old(self).default_fg_color,
                self.bg_color == old(self).default_bg_color,
                self.default_fg_color == old(self).default_fg_color,
                self.default_bg_color == old(self).default_bg_color,
                self.font_scale == old(self).font_scale,
                self.max_cols == old(self).max_cols,
                self.max_rows == old(self).max_rows,
                self.log_buffer == old(self).log_buffer,
                self.ansi_state == AnsiState::Normal,
                self.ansi_param == 0,
                self.base_addr == old(self).base_addr,
            decreases SCREEN_PIXELS - i,
        {
            self.screen.set(i, self.default_bg_color);
            i += 1;
        }
        proof {
            assert(self@.screen =~= filled(SCREEN_PIXELS as int, old(self)@.default_bg));
            assert(self@ =~= reset_for_redraw(old(self)@));
        }
        let bytes = self.log_buffer.contents();
        let ghost v0 = self@;
        let n = bytes.len();
        for i in 0..n
            invariant
                n == bytes@.len(),
                self.wf(),
                bytes@ == v0.log,
                self@ == replay(v0, bytes@.take(i as int)),
        {
            proof {
                assert(bytes@.take(i + 1).drop_last() =~= bytes@.take(i as int));
                assert(bytes@.take(i + 1).last() == bytes@[i as int]);
            }
            self.step_byte(bytes[i]);
        }
        proof {
            assert(bytes@.take(n as int) =~= bytes@);
        }
    }
}

/// Folds one more space onto the back: after `n` spaces, one more space
/// gives the state of `n + 1` spaces.
proof fn lemma_put_spaces_snoc(v: VgaView, n: nat)
    ensures
        put_spaces(v, n + 1) == after_visible(put_spaces(v, n), 0x20),
    decreases n,
{
    if n > 0 {
        lemma_put_spaces_snoc(after_visible(v, 0x20), (n - 1) as nat);
        assert(put_spaces(v, n + 1) == put_spaces(after_visible(v, 0x20), n));
        assert(put_spaces(v, n) == put_spaces(after_visible(v, 0x20), (n - 1) as nat));
    } else {
        assert(put_spaces(v, 1) == put_spaces(after_visible(v, 0x20), 0));
    }
}

} // verus!
