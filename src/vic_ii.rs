use vstd::prelude::*;

use crate::memory::{vic_read, Bus, BusModel};

verus! {

/// Width of a raster line in dots.
pub const LINE_WIDTH: u16 = 504;

/// Number of raster lines in a frame.
pub const FRAME_HEIGHT: u16 = 312;

/// Number of pixels in the scan-out surface.
pub const FRAME_PIXELS: usize = 157248;

/// Display window with the default (reduced) border.
pub const FIRST_LINE: u16 = 51;
pub const LAST_LINE: u16 = 250;
pub const FIRST_X_COORD: u16 = 96;
pub const LAST_X_COORD: u16 = 415;

/// Visible border frame.
pub const FIRST_VISIBLE_LINE: u16 = 8;
pub const FIRST_VISIBLE_X: u16 = 52;
pub const END_VISIBLE_X: u16 = 454;

/// Index of the border color register.
pub const BORDER_COLOR: usize = 0x20;

/// Palette indices used for character pixels.
pub const BLACK: u8 = 0;
pub const WHITE: u8 = 1;

/// The 47 registers of the video chip at 0xD000..0xD02E, mirrored every 64
/// bytes up to 0xD3FF.
pub struct Registers {
    pub data: [u8; 47],
}

/// Register index that an address in 0xD000..0xD3FF selects.
pub open spec fn register_index(addr: u16) -> int {
    (addr & 0x3F) as int
}

/// What a read of the register at `addr` returns: the last value written, or
/// 0 for an unimplemented register.
pub open spec fn register_value(regs: Seq<u8>, addr: u16) -> u8 {
    if register_index(addr) < 47 {
        regs[register_index(addr)]
    } else {
        0
    }
}

/// The register file after `value` is written to `addr`.
pub open spec fn registers_after_write(regs: Seq<u8>, addr: u16, value: u8) -> Seq<u8> {
    if register_index(addr) < 47 {
        regs.update(register_index(addr), value)
    } else {
        regs
    }
}

/// Border color index held by a register file.
pub open spec fn border_color_of(regs: Seq<u8>) -> u8 {
    regs[BORDER_COLOR as int] & 0x0F
}

impl View for Registers {
    type V = Seq<u8>;

    open spec fn view(&self) -> Seq<u8> {
        self.data@
    }
}

impl Registers {
    pub fn new() -> (r: Registers)
        ensures
            r@ == Seq::new(47, |i: int| 0u8),
    {
        let r = Registers { data: [0u8; 47] };
        assert(r@ =~= Seq::new(47, |i: int| 0u8));
        r
    }

    pub fn write(&mut self, addr: u16, value: u8)
        ensures
            final(self)@ == registers_after_write(old(self)@, addr, value),
    {
        let index = (addr & 0x3F) as usize;
        if index < 47 {
            self.data[index] = value;
        }
    }

    pub fn read(&self, addr: u16) -> (r: u8)
        ensures
            r == register_value(self@, addr),
    {
        let index = (addr & 0x3F) as usize;
        if index < 47 {
            self.data[index]
        } else {
            0
        }
    }

    pub fn border_color(&self) -> (r: u8)
        ensures
            r == border_color_of(self@),
    {
        self.data[BORDER_COLOR] & 0x0F
    }
}

/// The 16 fixed RGB colors of the palette.
pub open spec fn palette_rgb(index: u8) -> (u8, u8, u8) {
    match index {
        0 => (0x00, 0x00, 0x00),
        1 => (0xff, 0xff, 0xff),
        2 => (0x81, 0x33, 0x38),
        3 => (0x75, 0xce, 0xc8),
        4 => (0x8e, 0x3c, 0x97),
        5 => (0x56, 0xac, 0x4d),
        6 => (0x2e, 0x2c, 0x9b),
        7 => (0xed, 0xf1, 0x71),
        8 => (0x8e, 0x50, 0x29),
        9 => (0x55, 0x38, 0x00),
        10 => (0xc4, 0x6c, 0x71),
        11 => (0x4a, 0x4a, 0x4a),
        12 => (0x7b, 0x7b, 0x7b),
        13 => (0xa9, 0xff, 0x9f),
        14 => (0x70, 0x6d, 0xeb),
        _ => (0xb2, 0xb2, 0xb2),
    }
}

/// RGB triple of the palette entry selected by the low nibble of `index`.
pub fn palette_color(index: u8) -> (r: (u8, u8, u8))
    ensures
        r == palette_rgb(index & 0x0F),
{
    match index & 0x0F {
        0 => (0x00, 0x00, 0x00),
        1 => (0xff, 0xff, 0xff),
        2 => (0x81, 0x33, 0x38),
        3 => (0x75, 0xce, 0xc8),
        4 => (0x8e, 0x3c, 0x97),
        5 => (0x56, 0xac, 0x4d),
        6 => (0x2e, 0x2c, 0x9b),
        7 => (0xed, 0xf1, 0x71),
        8 => (0x8e, 0x50, 0x29),
        9 => (0x55, 0x38, 0x00),
        10 => (0xc4, 0x6c, 0x71),
        11 => (0x4a, 0x4a, 0x4a),
        12 => (0x7b, 0x7b, 0x7b),
        13 => (0xa9, 0xff, 0x9f),
        14 => (0x70, 0x6d, 0xeb),
        _ => (0xb2, 0xb2, 0xb2),
    }
}

/// Whether `(line, x)` lies inside the display window.
pub open spec fn in_display(line: u16, x: u16) -> bool {
    FIRST_LINE <= line <= LAST_LINE && FIRST_X_COORD <= x <= LAST_X_COORD
}

/// Whether `(line, x)` lies in the visible border: inside the visible frame,
/// outside the display window.
pub open spec fn in_border(line: u16, x: u16) -> bool {
    &&& !in_display(line, x)
    &&& FIRST_VISIBLE_LINE <= line < FRAME_HEIGHT
    &&& FIRST_VISIBLE_X <= x < END_VISIBLE_X
}

/// Address of the screen-matrix byte for the character cell under `(line, x)`.
pub open spec fn screen_addr(line: u16, x: u16) -> u16 {
    (0x0400 + 40 * ((line - FIRST_LINE) / 8) + (x - FIRST_X_COORD) / 8) as u16
}

/// Address of the character-generator byte for `screen_byte` on `line`.
pub open spec fn char_addr(screen_byte: u8, line: u16) -> u16 {
    (0x1000 + 8 * screen_byte + (line - FIRST_LINE) % 8) as u16
}

/// The character-generator byte painted at `(line, x)`.
pub open spec fn char_data(m: BusModel, line: u16, x: u16) -> u8 {
    vic_read(m, char_addr(vic_read(m, screen_addr(line, x)), line))
}

/// Palette index of pixel `i` (from the left) of a character byte.
pub open spec fn char_pixel(data: u8, i: u8) -> u8 {
    if data & (0x80u8 >> i) != 0 {
        WHITE
    } else {
        BLACK
    }
}

/// Palette index painted at pixel `i` of the 8-pixel slice at `(line, x)`, or
/// `None` where nothing is painted.
pub open spec fn slice_pixel(m: BusModel, line: u16, x: u16, i: int) -> Option<u8> {
    if in_display(line, x) {
        Some(char_pixel(char_data(m, line, x), i as u8))
    } else if in_border(line, x) {
        Some(border_color_of(m.vic_registers))
    } else {
        None
    }
}

/// Index of pixel `(x, line)` in the frame.
pub open spec fn pixel_index(line: int, x: int) -> int {
    line * LINE_WIDTH + x
}

/// The frame after painting the slice at `(line, x)`.
pub open spec fn painted(frame: Seq<u8>, m: BusModel, line: u16, x: u16) -> Seq<u8> {
    Seq::new(
        frame.len(),
        |j: int|
            {
                let k = j - pixel_index(line as int, x as int);
                if 0 <= k < 8 && slice_pixel(m, line, x, k) is Some {
                    slice_pixel(m, line, x, k)->0
                } else {
                    frame[j]
                }
            },
    )
}

/// Raster position after one tick: 8 dots to the right, wrapping to the next
/// line and from the last line to the first.
pub open spec fn advance(line: u16, x: u16) -> (u16, u16) {
    if x + 8 >= LINE_WIDTH {
        (if line + 1 >= FRAME_HEIGHT { 0 } else { (line + 1) as u16 }, 0)
    } else {
        (line, (x + 8) as u16)
    }
}

/// Raster position after `n` ticks.
pub open spec fn advance_n(line: u16, x: u16, n: nat) -> (u16, u16)
    decreases n,
{
    if n == 0 {
        (line, x)
    } else {
        let (l1, x1) = advance(line, x);
        advance_n(l1, x1, (n - 1) as nat)
    }
}

/// `n + k` ticks are `n` ticks followed by `k` ticks.
proof fn lemma_advance_n_split(line: u16, x: u16, n: nat, k: nat)
    ensures
        advance_n(line, x, n + k) == advance_n(advance_n(line, x, n).0, advance_n(line, x, n).1, k),
    decreases n,
{
    if n > 0 {
        let (l1, x1) = advance(line, x);
        lemma_advance_n_split(l1, x1, (n - 1) as nat, k);
        assert((n + k - 1) as nat == (n - 1) as nat + k);
    }
}

/// From dot `8 * i` of a line, `j` ticks stay on the line until the line is
/// done, then land on dot 0 of the next.
proof fn lemma_along_line(line: u16, i: nat, j: nat)
    requires
        line < FRAME_HEIGHT,
        i < 63,
        i + j <= 63,
    ensures
        advance_n(line, (8 * i) as u16, j) == (if i + j < 63 {
            (line, (8 * (i + j)) as u16)
        } else {
            (if line + 1 >= FRAME_HEIGHT { 0u16 } else { (line + 1) as u16 }, 0u16)
        }),
    decreases j,
{
    if j > 0 {
        if i < 62 {
            assert(advance(line, (8 * i) as u16) == (line, (8 * (i + 1)) as u16));
            lemma_along_line(line, i + 1, (j - 1) as nat);
        } else {
            assert(advance_n(line, (8 * i) as u16, j) == advance_n(
                if line + 1 >= FRAME_HEIGHT { 0u16 } else { (line + 1) as u16 },
                0u16,
                0,
            ));
        }
    }
}

/// `63 * n` ticks from dot 0 of `line` move down `n` lines.
proof fn lemma_lines(line: u16, n: nat)
    requires
        line < FRAME_HEIGHT,
        line + n <= FRAME_HEIGHT,
    ensures
        advance_n(line, 0, 63 * n) == (if line + n == FRAME_HEIGHT { 0u16 } else { (line + n) as u16 }, 0u16),
    decreases n,
{
    if n > 0 {
        lemma_along_line(line, 0, 63);
        assert((8 * 0nat) as u16 == 0u16);
        let next: u16 = if line + 1 >= FRAME_HEIGHT { 0 } else { (line + 1) as u16 };
        assert(advance_n(line, 0, 63) == (next, 0u16));
        lemma_advance_n_split(line, 0, 63, 63 * (n - 1) as nat);
        assert(63 + 63 * (n - 1) as nat == 63 * n);
        assert(advance_n(line, 0, 63 * n) == advance_n(next, 0, 63 * (n - 1) as nat));
        if line + 1 < FRAME_HEIGHT {
            lemma_lines((line + 1) as u16, (n - 1) as nat);
        } else {
            assert(n == 1);
            assert(advance_n(next, 0, 0) == (next, 0u16));
        }
    }
}

/// `19656 * f` ticks from the origin, `f` whole frames, return to it.
proof fn lemma_frames(f: nat)
    ensures
        advance_n(0, 0, 19656 * f) == (0u16, 0u16),
    decreases f,
{
    if f > 0 {
        lemma_lines(0, 312);
        lemma_advance_n_split(0, 0, 19656, 19656 * (f - 1) as nat);
        assert(19656 + 19656 * (f - 1) as nat == 19656 * f);
        lemma_frames((f - 1) as nat);
    }
}

/// Raster counter law: 504 x 312 = 157 248 ticks from `(line 0, x 0)` bring
/// the raster position back to `(line 0, x 0)`.
pub proof fn lemma_raster_period()
    ensures
        advance_n(0, 0, 157248) == (0u16, 0u16),
{
    lemma_frames(8);
    assert(19656 * 8 == 157248nat);
}

/// The raster engine: dot and line counters and the scan-out surface, which
/// holds a palette index per pixel, row by row.
pub struct VicII {
    pub raster_line: u16,
    pub x_coord: u16,
    pub frame: Vec<u8>,
}

impl VicII {
    pub open spec fn wf(&self) -> bool {
        &&& self.raster_line < FRAME_HEIGHT
        &&& self.x_coord < LINE_WIDTH
        &&& self.x_coord % 8 == 0
        &&& self.frame@.len() == FRAME_PIXELS
    }

    /// A raster engine at `(line 0, x 0)` with a black frame of 504 x 312
    /// pixels.
    pub fn new() -> (r: VicII)
        ensures
            r.wf(),
            r.raster_line == 0,
            r.x_coord == 0,
            r.frame@ == Seq::new(FRAME_PIXELS as nat, |i: int| BLACK),
    {
        let frame = vec![BLACK; FRAME_PIXELS];
        assert(frame@ =~= Seq::new(FRAME_PIXELS as nat, |i: int| BLACK));
        VicII { raster_line: 0, x_coord: 0, frame }
    }

    pub fn get_raster_position(&self) -> (r: (u16, u16))
        ensures
            r == (self.raster_line, self.x_coord),
    {
        (self.raster_line, self.x_coord)
    }

    /// Palette index of pixel `(x, line)` of the frame.
    pub fn pixel(&self, x: u16, line: u16) -> (r: u8)
        requires
            self.wf(),
            x < LINE_WIDTH,
            line < FRAME_HEIGHT,
        ensures
            r == self.frame@[pixel_index(line as int, x as int)],
    {
        assert(line * 504 + x < 157248) by (nonlinear_arith)
            requires
                line < 312,
                x < 504,
        ;
        self.frame[line as usize * 504 + x as usize]
    }

    fn paint(&mut self, start: usize, pixels: [u8; 8])
        requires
            start + 8 <= old(self).frame@.len(),
            start + 8 <= FRAME_PIXELS,
        ensures
            final(self).raster_line == old(self).raster_line,
            final(self).x_coord == old(self).x_coord,
            final(self).frame@ == Seq::new(
                old(self).frame@.len(),
                |j: int|
                    if start <= j < start + 8 {
                        pixels[j - start]
                    } else {
                        old(self).frame@[j]
                    },
            ),
    {
        let mut i: usize = 0;
        while i < 8
            invariant
                i <= 8,
                start + 8 <= old(self).frame@.len(),
                start + 8 <= FRAME_PIXELS,
                self.raster_line == old(self).raster_line,
                self.x_coord == old(self).x_coord,
                self.frame@.len() == old(self).frame@.len(),
                forall|j: int|
                    0 <= j < self.frame@.len() ==> self.frame@[j] == if start <= j < start + i {
                        pixels[j - start]
                    } else {
                        old(self).frame@[j]
                    },
            decreases 8 - i,
        {
            self.frame.set(start + i, pixels[i]);
            i = i + 1;
        }
        assert(self.frame@ =~= Seq::new(
            old(self).frame@.len(),
            |j: int|
                if start <= j < start + 8 {
                    pixels[j - start]
                } else {
                    old(self).frame@[j]
                },
        ));
    }

    /// One tick: paints the 8-pixel slice at the raster position (a character
    /// row slice inside the display window, border color in the visible
    /// border, nothing elsewhere), then advances the raster position.
    pub fn tick(&mut self, mem: &Bus)
        requires
            old(self).wf(),
        ensures
            final(self).wf(),
            (final(self).raster_line, final(self).x_coord) == advance(
                old(self).raster_line,
                old(self).x_coord,
            ),
            final(self).frame@ == painted(
                old(self).frame@,
                mem@,
                old(self).raster_line,
                old(self).x_coord,
            ),
    {
        let line = self.raster_line;
        let x = self.x_coord;
        assert(line * 504 + x + 8 <= 157248) by (nonlinear_arith)
            requires
                line < 312,
                x < 504,
                x % 8 == 0,
        ;
        let start = line as usize * 504 + x as usize;
        if FIRST_LINE <= line && line <= LAST_LINE && FIRST_X_COORD <= x && x <= LAST_X_COORD {
            let screen_byte = mem.vic_read(0x0400 + 40 * ((line - FIRST_LINE) / 8) + (x - FIRST_X_COORD) / 8);
            let data = mem.vic_read(0x1000 + 8 * (screen_byte as u16) + (line - FIRST_LINE) % 8);
            let mut pixels = [BLACK; 8];
            let mut i: u8 = 0;
            while i < 8
                invariant
                    i <= 8,
                    forall|k: int| 0 <= k < i ==> pixels@[k] == char_pixel(data, k as u8),
                decreases 8 - i,
            {
                pixels[i as usize] = if data & (0x80u8 >> i) != 0 { WHITE } else { BLACK };
                i = i + 1;
            }
            self.paint(start, pixels);
        } else if FIRST_VISIBLE_LINE <= line && line < FRAME_HEIGHT && FIRST_VISIBLE_X <= x && x
            < END_VISIBLE_X {
            let color = mem.vic_registers.border_color();
            self.paint(start, [color; 8]);
        }
        assert(self.frame@ =~= painted(old(self).frame@, mem@, line, x));
        if x + 8 >= LINE_WIDTH {
            self.x_coord = 0;
            self.raster_line = if line + 1 >= FRAME_HEIGHT { 0 } else { line + 1 };
        } else {
            self.x_coord = x + 8;
        }
    }
}

} // verus!
