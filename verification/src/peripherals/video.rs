//! The video unit: timing of the LCD, its registers and memories, and a renderer that draws
//! whole scanlines on demand, up to the cycle that a caller asks about.
use vstd::prelude::*;
use crate::fault::Fault;
use super::interrupts::{Interrupt, InterruptMask, InterruptSource};

verus! {

/// The number of object slots in the OAM.
pub const OAM_SLOTS: usize = 40;

/// The width of the screen in pixels.
pub const LCD_X: usize = 160;

/// The height of the screen in pixels.
pub const LCD_Y: usize = 144;

/// The number of pixels of the screen.
pub const LCD_PIXELS: usize = 23040;

/// The cycles that one scanline takes.
pub const CYCLES_PER_LINE: u64 = 456;

/// The cycles that one frame takes: 154 scanlines.
pub const CYCLES_PER_FRAME: u64 = 70224;

/// The cycle within a frame at which the vertical blank begins: the end of line 143.
pub const VBLANK_START: u64 = 65664;

/// The cycles from the start of line 143 to the start of line 0 of the next frame.
pub const CYCLES_OVER_VBLANK: u64 = 5016;

/// The bus address of the first byte of video RAM.
pub const VRAM_BASE: u16 = 0x8000;

/// What the LCD is doing at some cycle. The number of a mode is its place in this list.
#[derive(Clone, Copy, Debug, PartialEq, Eq, Structural)]
pub enum Mode {
    HBlank,
    VBlank,
    Drawing,
    OamScan,
}

impl Mode {
    /// The number of the mode as the STAT register shows it.
    pub open spec fn spec_number(self) -> u8 {
        match self {
            Mode::HBlank => 0,
            Mode::VBlank => 1,
            Mode::Drawing => 2,
            Mode::OamScan => 3,
        }
    }
}

/// One entry of the OAM: an object's place, tile and attributes.
#[derive(Clone, Copy, Debug, PartialEq, Eq, Structural)]
pub struct OamEntry {
    /// The screen line of the object's top, plus 16.
    pub y: u8,
    /// The screen column of the object's left edge, plus 8.
    pub x: u8,
    /// The number of the object's tile.
    pub idx: u8,
    /// Bit 7: behind the background; bit 6: flipped top to bottom; bit 5: flipped left to
    /// right; bit 4: palette OBP1.
    pub flags: u8,
}

impl OamEntry {
    pub open spec fn spec_below_bg(&self) -> bool {
        self.flags & 0x80 != 0
    }

    pub open spec fn spec_flip_y(&self) -> bool {
        self.flags & 0x40 != 0
    }

    pub open spec fn spec_flip_x(&self) -> bool {
        self.flags & 0x20 != 0
    }

    pub open spec fn spec_obp1(&self) -> bool {
        self.flags & 0x10 != 0
    }

    /// Whether the object is drawn only over background colour 0.
    #[verifier::when_used_as_spec(spec_below_bg)]
    pub fn below_bg(&self) -> (set: bool)
        ensures
            set == self.spec_below_bg(),
    {
        self.flags & 0x80 != 0
    }

    /// Whether the object is flipped top to bottom.
    #[verifier::when_used_as_spec(spec_flip_y)]
    pub fn flip_y(&self) -> (set: bool)
        ensures
            set == self.spec_flip_y(),
    {
        self.flags & 0x40 != 0
    }

    /// Whether the object is flipped left to right.
    #[verifier::when_used_as_spec(spec_flip_x)]
    pub fn flip_x(&self) -> (set: bool)
        ensures
            set == self.spec_flip_x(),
    {
        self.flags & 0x20 != 0
    }

    /// Whether the object takes its colours from OBP1 instead of OBP0.
    #[verifier::when_used_as_spec(spec_obp1)]
    pub fn obp1(&self) -> (set: bool)
        ensures
            set == self.spec_obp1(),
    {
        self.flags & 0x10 != 0
    }
}

/// The LCD control register (0xFF40).
#[derive(Clone, Copy, Debug, PartialEq, Eq, Structural)]
pub struct Lcdc(pub u8);

impl Lcdc {
    pub open spec fn spec_bit(self, n: u8) -> bool {
        self.0 & (1u8 << n) != 0
    }

    pub open spec fn spec_lcd_enable(self) -> bool {
        self.spec_bit(7)
    }

    pub open spec fn spec_window_tile_map_base(self) -> u16 {
        if self.spec_bit(6) {
            0x9c00
        } else {
            0x9800
        }
    }

    pub open spec fn spec_window_enable(self) -> bool {
        self.spec_bit(5)
    }

    pub open spec fn spec_bg_win_tile_base(self) -> u16 {
        if self.spec_bit(4) {
            0x8000
        } else {
            0x8800
        }
    }

    pub open spec fn spec_background_tile_map_base(self) -> u16 {
        if self.spec_bit(3) {
            0x9c00
        } else {
            0x9800
        }
    }

    pub open spec fn spec_obj_size(self) -> u8 {
        if self.spec_bit(2) {
            16
        } else {
            8
        }
    }

    pub open spec fn spec_obj_enable(self) -> bool {
        self.spec_bit(1)
    }

    pub open spec fn spec_bw_win_enable(self) -> bool {
        self.spec_bit(0)
    }

    /// Whether bit `n` of the register is set.
    #[verifier::when_used_as_spec(spec_bit)]
    pub fn bit(self, n: u8) -> (set: bool)
        requires
            n < 8,
        ensures
            set == self.spec_bit(n),
    {
        self.0 & (1u8 << n) != 0
    }

    /// Bit 7: the LCD is on.
    #[verifier::when_used_as_spec(spec_lcd_enable)]
    pub fn lcd_enable(self) -> (set: bool)
        ensures
            set == self.spec_lcd_enable(),
    {
        self.bit(7)
    }

    /// Bit 6: where the window's tile map starts.
    #[verifier::when_used_as_spec(spec_window_tile_map_base)]
    pub fn window_tile_map_base(self) -> (base: u16)
        ensures
            base == self.spec_window_tile_map_base(),
    {
        if self.bit(6) {
            0x9c00
        } else {
            0x9800
        }
    }

    /// Bit 5: the window is shown.
    #[verifier::when_used_as_spec(spec_window_enable)]
    pub fn window_enable(self) -> (set: bool)
        ensures
            set == self.spec_window_enable(),
    {
        self.bit(5)
    }

    /// Bit 4: where the tile data of background and window starts. From 0x8000 tiles are
    /// numbered 0 to 255; from 0x8800 they are numbered -128 to 127 around 0x9000.
    #[verifier::when_used_as_spec(spec_bg_win_tile_base)]
    pub fn bg_win_tile_base(self) -> (base: u16)
        ensures
            base == self.spec_bg_win_tile_base(),
    {
        if self.bit(4) {
            0x8000
        } else {
            0x8800
        }
    }

    /// Bit 3: where the background's tile map starts.
    #[verifier::when_used_as_spec(spec_background_tile_map_base)]
    pub fn background_tile_map_base(self) -> (base: u16)
        ensures
            base == self.spec_background_tile_map_base(),
    {
        if self.bit(3) {
            0x9c00
        } else {
            0x9800
        }
    }

    /// Bit 2: the height of objects, 8 or 16 lines.
    #[verifier::when_used_as_spec(spec_obj_size)]
    pub fn obj_size(self) -> (size: u8)
        ensures
            size == self.spec_obj_size(),
    {
        if self.bit(2) {
            16
        } else {
            8
        }
    }

    /// Bit 1: objects are shown.
    #[verifier::when_used_as_spec(spec_obj_enable)]
    pub fn obj_enable(self) -> (set: bool)
        ensures
            set == self.spec_obj_enable(),
    {
        self.bit(1)
    }

    /// Bit 0: background and window are shown.
    #[verifier::when_used_as_spec(spec_bw_win_enable)]
    pub fn bw_win_enable(self) -> (set: bool)
        ensures
            set == self.spec_bw_win_enable(),
    {
        self.bit(0)
    }
}

/// The colour number, 0 to 3, of one pixel of a tile row: `lo` holds the low bits and `hi`
/// the high bits of the row's eight pixels, the leftmost pixel (column 0) in bit 7.
pub open spec fn tile_colour(lo: u8, hi: u8, col: int) -> u8 {
    ((if (hi >> ((7 - col) as u8)) & 1 == 1 { 2int } else { 0 })
        + (if (lo >> ((7 - col) as u8)) & 1 == 1 { 1int } else { 0 })) as u8
}

/// The shade, 0 to 3, that a palette register gives to a colour number.
pub open spec fn shade(palette: u8, colour: u8) -> u8 {
    (palette >> ((2 * colour) as u8)) & 3
}

/// Shifting a byte left by `col` brings the bit of column `col` to the top.
pub proof fn lemma_column_bit(byte: u8, col: u8)
    requires
        col < 8,
    ensures
        ((byte << col) & 0x80 != 0) == ((byte >> ((7 - col) as u8)) & 1 == 1),
{
    assert(((byte << col) & 0x80 != 0) == ((byte >> ((7 - col) as u8)) & 1 == 1)) by (bit_vector)
        requires
            col < 8,
    ;
}

/// A shade is one of 0, 1, 2, 3.
pub proof fn lemma_shade_range(palette: u8, colour: u8)
    ensures
        shade(palette, colour) <= 3,
{
    let shift = (2 * colour) as u8;
    assert((palette >> shift) & 3 <= 3) by (bit_vector);
}

/// The colour number of one pixel of a tile row.
pub fn tile_pixel(lo: u8, hi: u8, col: u8) -> (colour: u8)
    requires
        col < 8,
    ensures
        colour == tile_colour(lo, hi, col as int),
        colour <= 3,
{
    proof {
        lemma_column_bit(lo, col);
        lemma_column_bit(hi, col);
    }
    let bit_l: u8 = if (lo << col) & 0x80 != 0 { 1 } else { 0 };
    let bit_h: u8 = if (hi << col) & 0x80 != 0 { 2 } else { 0 };
    bit_h + bit_l
}

/// The shade that a palette register gives to a colour number.
pub fn palette_shade(palette: u8, colour: u8) -> (val: u8)
    requires
        colour <= 3,
    ensures
        val == shade(palette, colour),
        val <= 3,
{
    proof {
        lemma_shade_range(palette, colour);
    }
    (palette >> (2 * colour)) & 3
}

/// The state of the video unit.
pub struct VideoView {
    /// The picture: 144 rows of 160 shades, the top row first.
    pub framebuffer: Seq<u8>,
    /// The cycle at which the LCD was last turned on, `u64::MAX` while it is off.
    pub enable_cycle: u64,
    /// The cycle at which the next scanline to draw begins, `u64::MAX` if there is none.
    pub render_cycle: u64,
    pub lcdc: Lcdc,
    pub scy: u8,
    pub scx: u8,
    pub lyc: u8,
    pub bgp: u8,
    pub obp0: u8,
    pub obp1: u8,
    pub wy: u8,
    pub wx: u8,
    /// The 8192 bytes of video RAM.
    pub vram: Seq<u8>,
    /// The 160 bytes of the OAM: 40 entries of 4 bytes.
    pub oam: Seq<u8>,
    pub irq_vblank_pending: bool,
    pub irq_stat_pending: bool,
    /// The cycle at which the vertical blank was last acknowledged, if it ever was.
    pub irq_acknowledge_cycle: Option<u64>,
}

/// Whether a bus address belongs to the video RAM (0x8000 to 0x9FFF).
pub open spec fn in_vram(addr: u16) -> bool {
    0x8000 <= addr <= 0x9fff
}

/// Whether a bus address belongs to the OAM (0xFE00 to 0xFE9F).
pub open spec fn in_oam(addr: u16) -> bool {
    0xfe00 <= addr <= 0xfe9f
}

/// Whether a bus address names a register of the video unit: 0xFF40 to 0xFF4B without the
/// DMA register 0xFF46, which belongs to the bus.
pub open spec fn is_video_register(addr: u16) -> bool {
    0xff40 <= addr <= 0xff4b && addr != 0xff46
}

/// Whether a bus address belongs to the video unit.
pub open spec fn in_video_space(addr: u16) -> bool {
    in_vram(addr) || in_oam(addr) || is_video_register(addr)
}

impl VideoView {
    // Timing

    /// The cycles since the LCD was turned on.
    pub open spec fn elapsed(self, cycle: u64) -> int {
        if cycle >= self.enable_cycle {
            cycle - self.enable_cycle
        } else {
            0
        }
    }

    pub open spec fn cycle_in_frame(self, cycle: u64) -> int {
        self.elapsed(cycle) % 70224
    }

    pub open spec fn frame(self, cycle: u64) -> int {
        self.elapsed(cycle) / 70224
    }

    pub open spec fn cycle_in_line(self, cycle: u64) -> int {
        self.cycle_in_frame(cycle) % 456
    }

    /// The scanline, 0 to 153, that the LCD is at.
    pub open spec fn line(self, cycle: u64) -> int {
        self.cycle_in_frame(cycle) / 456
    }

    /// Lines 144 to 153 are the vertical blank. A visible line scans the OAM for 80 cycles,
    /// draws until cycle 252 and rests for the remainder.
    pub open spec fn mode(self, cycle: u64) -> Mode {
        if self.line(cycle) >= 144 {
            Mode::VBlank
        } else if self.cycle_in_line(cycle) >= 252 {
            Mode::HBlank
        } else if self.cycle_in_line(cycle) >= 80 {
            Mode::Drawing
        } else {
            Mode::OamScan
        }
    }

    // Validity

    /// Whether the next scanline to draw begins at the start of a visible line.
    pub open spec fn render_aligned(self) -> bool {
        &&& self.enable_cycle <= self.render_cycle
        &&& self.cycle_in_line(self.render_cycle) == 0
        &&& self.line(self.render_cycle) < 144
    }

    pub open spec fn wf(self) -> bool {
        &&& self.framebuffer.len() == 23040
        &&& self.vram.len() == 8192
        &&& self.oam.len() == 160
        &&& forall|i: int| 0 <= i < 23040 ==> #[trigger] self.framebuffer[i] <= 3
        &&& self.enable_cycle == u64::MAX ==> self.render_cycle == u64::MAX
        &&& self.render_cycle != u64::MAX ==> self.render_aligned()
    }

    /// The state at power-on: the LCD is on since cycle 0, everything else is zero.
    pub open spec fn initial() -> VideoView {
        VideoView {
            framebuffer: Seq::new(23040, |i: int| 0u8),
            enable_cycle: 0,
            render_cycle: 0,
            lcdc: Lcdc(0x80),
            scy: 0,
            scx: 0,
            lyc: 0,
            bgp: 0,
            obp0: 0,
            obp1: 0,
            wy: 0,
            wx: 0,
            vram: Seq::new(8192, |i: int| 0u8),
            oam: Seq::new(160, |i: int| 0u8),
            irq_vblank_pending: false,
            irq_stat_pending: false,
            irq_acknowledge_cycle: None,
        }
    }

    // Pixels

    /// The byte of video RAM at a bus address.
    pub open spec fn vram_at(self, addr: int) -> u8 {
        self.vram[addr - 0x8000]
    }

    /// The bus address of row `row` of tile `idx` of the background and window.
    pub open spec fn bg_win_row_addr(self, idx: u8, row: int) -> int {
        if self.lcdc.spec_bit(4) {
            0x8000 + idx * 16 + row * 2
        } else if idx < 128 {
            0x9000 + idx * 16 + row * 2
        } else {
            0x9000 + (idx - 256) * 16 + row * 2
        }
    }

    /// The shade of the background at screen column `x` of screen line `y`.
    pub open spec fn bg_pixel(self, x: int, y: int) -> u8 {
        let sx = (x + self.scx) % 256;
        let sy = (y + self.scy) % 256;
        let idx = self.vram_at(self.lcdc.spec_background_tile_map_base() + (sy / 8) * 32 + sx / 8);
        let row = self.bg_win_row_addr(idx, sy % 8);
        shade(self.bgp, tile_colour(self.vram_at(row), self.vram_at(row + 1), sx % 8))
    }

    /// Whether the window lies over a pixel.
    pub open spec fn window_covers(self, x: int, y: int) -> bool {
        y >= self.wy && x + 7 >= self.wx
    }

    /// The shade of the window at a pixel that it covers.
    pub open spec fn window_pixel(self, x: int, y: int) -> u8 {
        let wx = x + 7 - self.wx;
        let wy = y - self.wy;
        let idx = self.vram_at(self.lcdc.spec_window_tile_map_base() + (wy / 8) * 32 + wx / 8);
        let row = self.bg_win_row_addr(idx, wy % 8);
        shade(self.bgp, tile_colour(self.vram_at(row), self.vram_at(row + 1), wx % 8))
    }

    /// Entry `k` of the OAM.
    pub open spec fn oam_entry(self, k: int) -> OamEntry {
        OamEntry {
            y: self.oam[4 * k],
            x: self.oam[4 * k + 1],
            idx: self.oam[4 * k + 2],
            flags: self.oam[4 * k + 3],
        }
    }

    /// Whether the 8 by 8 object `k` lies over a pixel.
    pub open spec fn obj_covers(self, k: int, x: int, y: int) -> bool {
        let obj = self.oam_entry(k);
        0 <= y - obj.y + 16 < 8 && 0 <= x - obj.x + 8 < 8
    }

    /// The colour number of object `k` at a pixel that it covers.
    pub open spec fn obj_colour(self, k: int, x: int, y: int) -> u8 {
        let obj = self.oam_entry(k);
        let row = if obj.spec_flip_y() {
            7 - (y - obj.y + 16)
        } else {
            y - obj.y + 16
        };
        let col = if obj.spec_flip_x() {
            7 - (x - obj.x + 8)
        } else {
            x - obj.x + 8
        };
        let addr = 0x8000 + obj.idx * 16 + row * 2;
        tile_colour(self.vram_at(addr), self.vram_at(addr + 1), col)
    }

    /// The shade of a pixel once object `k` is drawn over the shade `under`: colour 0 is
    /// transparent, and an object behind the background shows only over the shade of
    /// background colour 0.
    pub open spec fn apply_obj(self, k: int, x: int, y: int, under: u8) -> u8 {
        let obj = self.oam_entry(k);
        let colour = self.obj_colour(k, x, y);
        if self.obj_covers(k, x, y) && colour != 0 && (!obj.spec_below_bg() || under == self.bgp
            & 3) {
            shade(
                if obj.spec_obp1() {
                    self.obp1
                } else {
                    self.obp0
                },
                colour,
            )
        } else {
            under
        }
    }

    /// The shade of a pixel once the first `n` objects are drawn over it, in OAM order.
    pub open spec fn objs_pixel(self, n: nat, x: int, y: int, under: u8) -> u8
        decreases n,
    {
        if n == 0 {
            under
        } else {
            self.apply_obj(n - 1, x, y, self.objs_pixel((n - 1) as nat, x, y, under))
        }
    }

    /// The picture with the background drawn on line `y`.
    pub open spec fn with_background(self, y: int) -> Seq<u8> {
        Seq::new(
            23040,
            |i: int|
                if i / 160 == y {
                    self.bg_pixel(i % 160, y)
                } else {
                    self.framebuffer[i]
                },
        )
    }

    /// The picture with the window drawn on line `y`, where it covers the line.
    pub open spec fn with_window(self, y: int) -> Seq<u8> {
        Seq::new(
            23040,
            |i: int|
                if i / 160 == y && self.window_covers(i % 160, y) {
                    self.window_pixel(i % 160, y)
                } else {
                    self.framebuffer[i]
                },
        )
    }

    /// The picture with the forty objects drawn on line `y`.
    pub open spec fn with_objects(self, y: int) -> Seq<u8> {
        Seq::new(
            23040,
            |i: int|
                if i / 160 == y {
                    self.objs_pixel(40, i % 160, y, self.framebuffer[i])
                } else {
                    self.framebuffer[i]
                },
        )
    }

    pub open spec fn set_framebuffer(self, framebuffer: Seq<u8>) -> VideoView {
        VideoView { framebuffer, ..self }
    }

    /// The state with the scanline at `render_cycle` drawn: the background, then the window
    /// (both only if LCDC bit 0 is set, the window only if bit 5 is set too), then the
    /// objects (if bit 1 is set).
    pub open spec fn draw_line(self) -> VideoView {
        let y = self.line(self.render_cycle);
        let v1 = if self.lcdc.spec_bw_win_enable() {
            self.set_framebuffer(self.with_background(y))
        } else {
            self
        };
        let v2 = if self.lcdc.spec_bw_win_enable() && self.lcdc.spec_window_enable() {
            v1.set_framebuffer(v1.with_window(y))
        } else {
            v1
        };
        if self.lcdc.spec_obj_enable() {
            v2.set_framebuffer(v2.with_objects(y))
        } else {
            v2
        }
    }

    // Rendering on demand

    /// Whether the scanline at `render_cycle` has ended by `cycle`.
    pub open spec fn line_due(self, cycle: u64) -> bool {
        self.render_cycle + 456 <= cycle
    }

    /// Where the scanline after the one at `render_cycle` begins: one line on, or eleven
    /// lines on after line 143, over the vertical blank. `u64::MAX` if the counter ends first.
    pub open spec fn next_render_cycle(self) -> u64 {
        let step = if self.line(self.render_cycle) == 143 {
            5016int
        } else {
            456int
        };
        if self.render_cycle + step > u64::MAX {
            u64::MAX
        } else {
            (self.render_cycle + step) as u64
        }
    }

    /// The state with one scanline drawn and `render_cycle` moved on.
    pub open spec fn render_line(self) -> VideoView {
        VideoView { render_cycle: self.next_render_cycle(), ..self.draw_line() }
    }

    /// The cycles between `render_cycle` and `cycle`.
    pub open spec fn render_backlog(self, cycle: u64) -> nat {
        if self.render_cycle <= cycle {
            (cycle - self.render_cycle) as nat
        } else {
            0
        }
    }

    /// The state with every scanline drawn that has ended by `cycle`.
    pub open spec fn render_until(self, cycle: u64) -> VideoView
        decreases self.render_backlog(cycle),
    {
        if self.line_due(cycle) {
            self.render_line().render_until(cycle)
        } else {
            self
        }
    }

    /// Objects of 16 lines cannot be drawn: rendering fails if a scanline is due while
    /// they are enabled.
    pub open spec fn render_fault(self, cycle: u64) -> bool {
        self.line_due(cycle) && self.lcdc.spec_obj_enable() && self.lcdc.spec_obj_size() == 16
    }

    // Registers and memories

    /// The STAT byte: bit 2 tells whether LY equals LYC, bits 1 and 0 hold the mode.
    pub open spec fn stat(self, cycle: u64) -> u8 {
        ((if self.lyc == self.line(cycle) {
            4int
        } else {
            0
        }) + self.mode(cycle).spec_number()) as u8
    }

    /// What a read at `cycle` returns.
    pub open spec fn read(self, cycle: u64, addr: u16) -> u8 {
        if in_vram(addr) {
            self.vram[addr - 0x8000]
        } else if in_oam(addr) {
            self.oam[addr - 0xfe00]
        } else if addr == 0xff40 {
            self.lcdc.0
        } else if addr == 0xff41 {
            self.stat(cycle)
        } else if addr == 0xff42 {
            self.scy
        } else if addr == 0xff43 {
            self.scx
        } else if addr == 0xff44 {
            self.line(cycle) as u8
        } else if addr == 0xff45 {
            self.lyc
        } else if addr == 0xff47 {
            self.bgp
        } else if addr == 0xff48 {
            self.obp0
        } else if addr == 0xff49 {
            self.obp1
        } else if addr == 0xff4a {
            self.wy
        } else {
            self.wx
        }
    }

    /// The state after LCDC is written: turning the LCD on restarts its timing at `cycle`,
    /// turning it off stops timing and rendering.
    pub open spec fn store_lcdc(self, cycle: u64, val: u8) -> VideoView {
        let before = self.lcdc.spec_lcd_enable();
        let after = Lcdc(val).spec_lcd_enable();
        if !before && after {
            VideoView { lcdc: Lcdc(val), enable_cycle: cycle, render_cycle: cycle, ..self }
        } else if before && !after {
            VideoView { lcdc: Lcdc(val), enable_cycle: u64::MAX, render_cycle: u64::MAX, ..self }
        } else {
            VideoView { lcdc: Lcdc(val), ..self }
        }
    }

    /// The state after a byte is stored, rendering apart. STAT and LY ignore the store.
    pub open spec fn store(self, cycle: u64, addr: u16, val: u8) -> VideoView {
        if in_vram(addr) {
            VideoView { vram: self.vram.update(addr - 0x8000, val), ..self }
        } else if in_oam(addr) {
            VideoView { oam: self.oam.update(addr - 0xfe00, val), ..self }
        } else if addr == 0xff40 {
            self.store_lcdc(cycle, val)
        } else if addr == 0xff42 {
            VideoView { scy: val, ..self }
        } else if addr == 0xff43 {
            VideoView { scx: val, ..self }
        } else if addr == 0xff45 {
            VideoView { lyc: val, ..self }
        } else if addr == 0xff47 {
            VideoView { bgp: val, ..self }
        } else if addr == 0xff48 {
            VideoView { obp0: val, ..self }
        } else if addr == 0xff49 {
            VideoView { obp1: val, ..self }
        } else if addr == 0xff4a {
            VideoView { wy: val, ..self }
        } else if addr == 0xff4b {
            VideoView { wx: val, ..self }
        } else {
            self
        }
    }

    /// The fault that a write at `cycle` meets, if any.
    pub open spec fn write_fault(self, cycle: u64, addr: u16, val: u8) -> Option<Fault> {
        if self.render_fault(cycle) {
            Some(Fault::TallObjects)
        } else if addr == 0xff41 && val != 0 {
            Some(Fault::StatWrite(val))
        } else {
            None
        }
    }

    /// The state after a write at `cycle` that meets no fault: the scanlines that have ended
    /// by then are drawn first, from the state before the write.
    pub open spec fn write(self, cycle: u64, addr: u16, val: u8) -> VideoView {
        self.render_until(cycle).store(cycle, addr, val)
    }

    // Interrupts

    /// Whether the vertical blank of the frame that `cycle` lies in was acknowledged: the
    /// vertical blank bit was cleared by hand at some cycle of that frame. Nothing is
    /// acknowledged at power-on.
    pub open spec fn vblank_acknowledged(self, cycle: u64) -> bool {
        self.irq_acknowledge_cycle matches Some(at) && self.frame(cycle) == self.frame(at)
    }

    /// Whether the LCD raises the vertical blank interrupt at `cycle`: the frame has entered
    /// its vertical blank and was not acknowledged.
    pub open spec fn vblank_due(self, cycle: u64) -> bool {
        self.line(cycle) >= 144 && !self.vblank_acknowledged(cycle)
    }

    /// The earliest cycle from `cycle` on at which the LCD raises the vertical blank
    /// interrupt: `cycle` itself if it does so now, else the start of the vertical blank
    /// of this frame, or of the next frame if this one is past that start or was
    /// acknowledged. `u64::MAX` while the LCD is off or if the counter ends first.
    pub open spec fn next_pending(self, cycle: u64) -> u64 {
        if self.enable_cycle == u64::MAX {
            u64::MAX
        } else if self.vblank_due(cycle) {
            cycle
        } else {
            let wait = if self.cycle_in_frame(cycle) < 65664 && !self.vblank_acknowledged(cycle) {
                65664 - self.cycle_in_frame(cycle)
            } else {
                65664 + 70224 - self.cycle_in_frame(cycle)
            };
            if cycle + wait > u64::MAX {
                u64::MAX
            } else {
                (cycle + wait) as u64
            }
        }
    }

    /// The vertical blank interrupt is pending if it was set by hand or if the LCD raises
    /// it at `cycle`; the LCD interrupt is pending only if it was set by hand.
    pub open spec fn pending(self, cycle: u64) -> InterruptMask {
        InterruptMask(
            ((if self.irq_vblank_pending || self.vblank_due(cycle) {
                0x01int
            } else {
                0
            }) + (if self.irq_stat_pending {
                0x02int
            } else {
                0
            })) as u8,
        )
    }

    /// The state after the two bits of the video unit are set by hand: a cleared vertical
    /// blank bit acknowledges the vertical blank at `cycle`.
    pub open spec fn set_pending(self, cycle: u64, mask: InterruptMask) -> VideoView {
        VideoView {
            irq_vblank_pending: mask.spec_is_set(Interrupt::VBlank),
            irq_stat_pending: mask.spec_is_set(Interrupt::Lcd),
            irq_acknowledge_cycle: if mask.spec_is_set(Interrupt::VBlank) {
                self.irq_acknowledge_cycle
            } else {
                Some(cycle)
            },
            ..self
        }
    }
}

/// The video unit.
pub struct Video {
    framebuffer: [u8; 23040],
    enable_cycle: u64,
    render_cycle: u64,
    lcdc: Lcdc,
    scy: u8,
    scx: u8,
    lyc: u8,
    bgp: u8,
    obp0: u8,
    obp1: u8,
    wy: u8,
    wx: u8,
    video_ram: [u8; 8192],
    oam: [u8; 160],
    irq_vblank_pending: bool,
    irq_stat_pending: bool,
    irq_acknowledge_cycle: Option<u64>,
}

impl View for Video {
    type V = VideoView;

    closed spec fn view(&self) -> VideoView {
        VideoView {
            framebuffer: self.framebuffer@,
            enable_cycle: self.enable_cycle,
            render_cycle: self.render_cycle,
            lcdc: self.lcdc,
            scy: self.scy,
            scx: self.scx,
            lyc: self.lyc,
            bgp: self.bgp,
            obp0: self.obp0,
            obp1: self.obp1,
            wy: self.wy,
            wx: self.wx,
            vram: self.video_ram@,
            oam: self.oam@,
            irq_vblank_pending: self.irq_vblank_pending,
            irq_stat_pending: self.irq_stat_pending,
            irq_acknowledge_cycle: self.irq_acknowledge_cycle,
        }
    }
}

impl Video {
    /// The video unit at power-on.
    pub fn new() -> (video: Self)
        ensures
            video@ == VideoView::initial(),
            video@.wf(),
    {
        let video = Video {
            framebuffer: [0u8; 23040],
            render_cycle: 0,
            enable_cycle: 0,
            lcdc: Lcdc(0x80),
            scy: 0,
            scx: 0,
            lyc: 0,
            bgp: 0,
            obp0: 0,
            obp1: 0,
            wy: 0,
            wx: 0,
            video_ram: [0u8; 8192],
            oam: [0u8; 160],
            irq_vblank_pending: false,
            irq_stat_pending: false,
            irq_acknowledge_cycle: None,
        };
        assert(video@.framebuffer =~= VideoView::initial().framebuffer);
        assert(video@.vram =~= VideoView::initial().vram);
        assert(video@.oam =~= VideoView::initial().oam);
        video
    }

    /// The cycle within the frame that `cycle` lies in.
    pub fn cycle_in_frame(&self, cycle: u64) -> (c: u64)
        ensures
            c == self@.cycle_in_frame(cycle),
            c < 70224,
    {
        cycle.saturating_sub(self.enable_cycle) % CYCLES_PER_FRAME
    }

    /// The number of the frame that `cycle` lies in, counted from the cycle at which the LCD
    /// was turned on.
    pub fn frame(&self, cycle: u64) -> (f: u64)
        ensures
            f == self@.frame(cycle),
    {
        cycle.saturating_sub(self.enable_cycle) / CYCLES_PER_FRAME
    }

    /// The cycle within the scanline that `cycle` lies in.
    pub fn cycle_in_line(&self, cycle: u64) -> (c: u64)
        ensures
            c == self@.cycle_in_line(cycle),
            c < 456,
    {
        self.cycle_in_frame(cycle) % CYCLES_PER_LINE
    }

    /// The scanline that the LCD is at.
    pub fn line(&self, cycle: u64) -> (l: u8)
        ensures
            l == self@.line(cycle),
            l < 154,
    {
        (self.cycle_in_frame(cycle) / CYCLES_PER_LINE) as u8
    }

    /// What the LCD is doing.
    pub fn mode(&self, cycle: u64) -> (m: Mode)
        ensures
            m == self@.mode(cycle),
    {
        let cycle_in_line = self.cycle_in_line(cycle);
        let line = self.line(cycle);
        if line >= 144 {
            Mode::VBlank
        } else if cycle_in_line >= 252 {
            Mode::HBlank
        } else if cycle_in_line >= 80 {
            Mode::Drawing
        } else {
            Mode::OamScan
        }
    }

    /// Whether the vertical blank of the frame that `cycle` lies in was acknowledged.
    pub fn vblank_acknowledged(&self, cycle: u64) -> (acknowledged: bool)
        ensures
            acknowledged == self@.vblank_acknowledged(cycle),
    {
        match self.irq_acknowledge_cycle {
            Some(at) => self.frame(cycle) == self.frame(at),
            None => false,
        }
    }

    /// Whether the LCD raises the vertical blank interrupt at `cycle`.
    pub fn vblank_due(&self, cycle: u64) -> (due: bool)
        ensures
            due == self@.vblank_due(cycle),
    {
        self.line(cycle) >= 144 && !self.vblank_acknowledged(cycle)
    }

    /// Entry `idx` of the OAM.
    pub fn oam_entry(&self, idx: u8) -> (entry: OamEntry)
        requires
            idx < 40,
        ensures
            entry == self@.oam_entry(idx as int),
    {
        let base = (idx as usize) * 4;
        OamEntry {
            y: self.oam[base],
            x: self.oam[base + 1],
            idx: self.oam[base + 2],
            flags: self.oam[base + 3],
        }
    }

    /// The byte of video RAM at a bus address.
    pub fn video_ram_read(&self, addr: u16) -> (val: u8)
        requires
            in_vram(addr),
        ensures
            val == self@.vram_at(addr as int),
    {
        self.video_ram[(addr - VRAM_BASE) as usize]
    }

    /// The two bytes of row `row` of tile `idx` of the background and window.
    pub fn get_bg_win_tile_row(&self, idx: u8, row: u8) -> (bytes: (u8, u8))
        requires
            row < 8,
        ensures
            bytes.0 == self@.vram_at(self@.bg_win_row_addr(idx, row as int)),
            bytes.1 == self@.vram_at(self@.bg_win_row_addr(idx, row as int) + 1),
    {
        let tile_data_addr: u16 = if self.lcdc.bit(4) {
            0x8000 + (idx as u16) * 16 + (row as u16) * 2
        } else if idx < 128 {
            0x9000 + (idx as u16) * 16 + (row as u16) * 2
        } else {
            0x8800 + ((idx - 128) as u16) * 16 + (row as u16) * 2
        };
        let tile_data_l = self.video_ram_read(tile_data_addr);
        let tile_data_h = self.video_ram_read(tile_data_addr + 1);
        (tile_data_l, tile_data_h)
    }

    /// The two bytes of row `row` of an object's tile `idx`.
    pub fn get_obj_tile_row(&self, idx: u8, row: u8) -> (bytes: (u8, u8))
        requires
            row < 8,
        ensures
            bytes.0 == self@.vram_at(0x8000 + idx * 16 + row * 2),
            bytes.1 == self@.vram_at(0x8000 + idx * 16 + row * 2 + 1),
    {
        let tile_data_addr: u16 = 0x8000 + (idx as u16) * 16 + (row as u16) * 2;
        let tile_data_l = self.video_ram_read(tile_data_addr);
        let tile_data_h = self.video_ram_read(tile_data_addr + 1);
        (tile_data_l, tile_data_h)
    }

    /// The shade of the background at a pixel.
    fn background_pixel(&self, lcd_x: u8, lcd_y: u8) -> (val: u8)
        requires
            lcd_x < 160,
            lcd_y < 144,
        ensures
            val == self@.bg_pixel(lcd_x as int, lcd_y as int),
            val <= 3,
    {
        let scrolled_y = lcd_y.wrapping_add(self.scy);
        let scrolled_x = lcd_x.wrapping_add(self.scx);
        assert(scrolled_y == (lcd_y + self.scy) % 256);
        assert(scrolled_x == (lcd_x + self.scx) % 256);
        let tile_y: u16 = (scrolled_y / 8) as u16;
        let tile_x: u16 = (scrolled_x / 8) as u16;
        assert(tile_y < 32 && tile_x < 32);
        let tile_map_addr: u16 = tile_y * 32 + tile_x;
        let tile_data_idx = self.video_ram_read(
            self.lcdc.background_tile_map_base() + tile_map_addr,
        );
        let (tile_data_l, tile_data_h) = self.get_bg_win_tile_row(tile_data_idx, scrolled_y % 8);
        let colour = tile_pixel(tile_data_l, tile_data_h, scrolled_x % 8);
        palette_shade(self.bgp, colour)
    }

    /// The shade of the window at a pixel that it covers.
    fn window_pixel(&self, lcd_x: u8, lcd_y: u8) -> (val: u8)
        requires
            lcd_x < 160,
            lcd_y < 144,
            self@.window_covers(lcd_x as int, lcd_y as int),
        ensures
            val == self@.window_pixel(lcd_x as int, lcd_y as int),
            val <= 3,
    {
        let window_y: u8 = lcd_y - self.wy;
        let window_x: u8 = ((lcd_x as u16) + 7 - (self.wx as u16)) as u8;
        let tile_y: u16 = (window_y / 8) as u16;
        let tile_x: u16 = (window_x / 8) as u16;
        assert(tile_y < 32 && tile_x < 32);
        let tile_map_addr: u16 = tile_y * 32 + tile_x;
        let tile_data_idx = self.video_ram_read(self.lcdc.window_tile_map_base() + tile_map_addr);
        let (tile_data_l, tile_data_h) = self.get_bg_win_tile_row(tile_data_idx, window_y % 8);
        let colour = tile_pixel(tile_data_l, tile_data_h, window_x % 8);
        palette_shade(self.bgp, colour)
    }

    /// Draws the background on the scanline at `render_cycle`.
    pub fn draw_background_line(&mut self)
        requires
            old(self)@.wf(),
            old(self)@.render_cycle != u64::MAX,
        ensures
            final(self)@ == old(self)@.set_framebuffer(
                old(self)@.with_background(old(self)@.line(old(self)@.render_cycle)),
            ),
            final(self)@.wf(),
    {
        let lcd_y = self.line(self.render_cycle);
        let ghost v0 = self@;
        let mut lcd_x: u8 = 0;
        while lcd_x < 160
            invariant
                lcd_x <= 160,
                lcd_y < 144,
                v0.wf(),
                self@ == v0.set_framebuffer(self@.framebuffer),
                self@.framebuffer.len() == 23040,
                forall|i: int|
                    0 <= i < 23040 ==> #[trigger] self@.framebuffer[i] == (if i / 160 == lcd_y && i
                        % 160 < lcd_x {
                        v0.bg_pixel(i % 160, lcd_y as int)
                    } else {
                        v0.framebuffer[i]
                    }),
                forall|i: int| 0 <= i < 23040 ==> #[trigger] self@.framebuffer[i] <= 3,
            decreases 160 - lcd_x,
        {
            let val = self.background_pixel(lcd_x, lcd_y);
            let idx = (lcd_y as usize) * LCD_X + lcd_x as usize;
            self.framebuffer[idx] = val;
            lcd_x += 1;
        }
        assert(self@.framebuffer =~= v0.with_background(lcd_y as int));
    }

    /// Draws the window on the scanline at `render_cycle`, where it covers the line.
    pub fn draw_window_line(&mut self)
        requires
            old(self)@.wf(),
            old(self)@.render_cycle != u64::MAX,
        ensures
            final(self)@ == old(self)@.set_framebuffer(
                old(self)@.with_window(old(self)@.line(old(self)@.render_cycle)),
            ),
            final(self)@.wf(),
    {
        let lcd_y = self.line(self.render_cycle);
        let ghost v0 = self@;
        if lcd_y < self.wy {
            assert(self@.framebuffer =~= v0.with_window(lcd_y as int));
            return ;
        }
        let mut lcd_x: u8 = 0;
        while lcd_x < 160
            invariant
                lcd_x <= 160,
                lcd_y < 144,
                lcd_y >= v0.wy,
                v0.wf(),
                self@ == v0.set_framebuffer(self@.framebuffer),
                self@.framebuffer.len() == 23040,
                forall|i: int|
                    0 <= i < 23040 ==> #[trigger] self@.framebuffer[i] == (if i / 160 == lcd_y && i
                        % 160 < lcd_x && v0.window_covers(i % 160, lcd_y as int) {
                        v0.window_pixel(i % 160, lcd_y as int)
                    } else {
                        v0.framebuffer[i]
                    }),
                forall|i: int| 0 <= i < 23040 ==> #[trigger] self@.framebuffer[i] <= 3,
            decreases 160 - lcd_x,
        {
            if (lcd_x as u16) + 7 >= (self.wx as u16) {
                let val = self.window_pixel(lcd_x, lcd_y);
                let idx = (lcd_y as usize) * LCD_X + lcd_x as usize;
                self.framebuffer[idx] = val;
            }
            lcd_x += 1;
        }
        assert(self@.framebuffer =~= v0.with_window(lcd_y as int));
    }

    /// Draws object `k` on screen line `lcd_y`, over what the line holds.
    fn draw_obj(&mut self, k: u8, lcd_y: u8)
        requires
            old(self)@.wf(),
            k < 40,
            lcd_y < 144,
        ensures
            final(self)@ == old(self)@.set_framebuffer(final(self)@.framebuffer),
            final(self)@.wf(),
            forall|i: int|
                0 <= i < 23040 ==> #[trigger] final(self)@.framebuffer[i] == (if i / 160 == lcd_y {
                    old(self)@.apply_obj(
                        k as int,
                        i % 160,
                        lcd_y as int,
                        old(self)@.framebuffer[i],
                    )
                } else {
                    old(self)@.framebuffer[i]
                }),
    {
        let ghost v0 = self@;
        let obj = self.oam_entry(k);
        let in_obj_y: i16 = (lcd_y as i16) - (obj.y as i16) + 16;
        if in_obj_y < 0 || in_obj_y >= 8 {
            return ;
        }
        let row: u8 = if obj.flip_y() {
            (7 - in_obj_y) as u8
        } else {
            in_obj_y as u8
        };
        let (tile_data_l, tile_data_h) = self.get_obj_tile_row(obj.idx, row);
        let pal = if obj.obp1() {
            self.obp1
        } else {
            self.obp0
        };
        let mut in_obj_x: u8 = 0;
        while in_obj_x < 8
            invariant
                in_obj_x <= 8,
                k < 40,
                lcd_y < 144,
                v0.wf(),
                obj == v0.oam_entry(k as int),
                0 <= lcd_y - obj.y + 16 < 8,
                row == (if obj.spec_flip_y() {
                    7 - (lcd_y - obj.y + 16)
                } else {
                    lcd_y - obj.y + 16
                }),
                tile_data_l == v0.vram_at(0x8000 + obj.idx * 16 + row * 2),
                tile_data_h == v0.vram_at(0x8000 + obj.idx * 16 + row * 2 + 1),
                pal == (if obj.spec_obp1() {
                    v0.obp1
                } else {
                    v0.obp0
                }),
                self@ == v0.set_framebuffer(self@.framebuffer),
                self@.framebuffer.len() == 23040,
                forall|i: int|
                    0 <= i < 23040 ==> #[trigger] self@.framebuffer[i] == (if i / 160 == lcd_y && i
                        % 160 - obj.x + 8 < in_obj_x {
                        v0.apply_obj(k as int, i % 160, lcd_y as int, v0.framebuffer[i])
                    } else {
                        v0.framebuffer[i]
                    }),
                forall|i: int| 0 <= i < 23040 ==> #[trigger] self@.framebuffer[i] <= 3,
            decreases 8 - in_obj_x,
        {
            let lcd_x: i16 = (in_obj_x as i16) + (obj.x as i16) - 8;
            if 0 <= lcd_x && lcd_x < 160 {
                let col: u8 = if obj.flip_x() {
                    7 - in_obj_x
                } else {
                    in_obj_x
                };
                let colour = tile_pixel(tile_data_l, tile_data_h, col);
                if colour != 0 {
                    let val = palette_shade(pal, colour);
                    let idx = (lcd_y as usize) * LCD_X + lcd_x as usize;
                    let bg_recessive = self.framebuffer[idx] == self.bgp & 3;
                    if !obj.below_bg() || bg_recessive {
                        self.framebuffer[idx] = val;
                    }
                }
            }
            in_obj_x += 1;
        }
    }

    /// Draws the forty objects, in OAM order, on the scanline at `render_cycle`.
    /// Only objects of 8 lines can be drawn.
    pub fn draw_obj_line(&mut self)
        requires
            old(self)@.wf(),
            old(self)@.render_cycle != u64::MAX,
            old(self)@.lcdc.spec_obj_size() == 8,
        ensures
            final(self)@ == old(self)@.set_framebuffer(
                old(self)@.with_objects(old(self)@.line(old(self)@.render_cycle)),
            ),
            final(self)@.wf(),
    {
        let lcd_y = self.line(self.render_cycle);
        let ghost v0 = self@;
        let mut k: u8 = 0;
        while k < 40
            invariant
                k <= 40,
                lcd_y < 144,
                v0.wf(),
                self@.wf(),
                self@ == v0.set_framebuffer(self@.framebuffer),
                forall|i: int|
                    0 <= i < 23040 ==> #[trigger] self@.framebuffer[i] == (if i / 160 == lcd_y {
                        v0.objs_pixel(k as nat, i % 160, lcd_y as int, v0.framebuffer[i])
                    } else {
                        v0.framebuffer[i]
                    }),
            decreases 40 - k,
        {
            let ghost before = self@;
            self.draw_obj(k, lcd_y);
            proof {
                assert forall|i: int| 0 <= i < 23040 implies #[trigger] self@.framebuffer[i] == (
                if i / 160 == lcd_y {
                    v0.objs_pixel((k + 1) as nat, i % 160, lcd_y as int, v0.framebuffer[i])
                } else {
                    v0.framebuffer[i]
                }) by {
                    if i / 160 == lcd_y {
                        assert(before.apply_obj(
                            k as int,
                            i % 160,
                            lcd_y as int,
                            before.framebuffer[i],
                        ) == v0.apply_obj(k as int, i % 160, lcd_y as int, before.framebuffer[i]));
                    }
                }
            }
            k += 1;
        }
        assert(self@.framebuffer =~= v0.with_objects(lcd_y as int));
    }

    /// Draws the scanline at `render_cycle`.
    pub fn draw_line(&mut self)
        requires
            old(self)@.wf(),
            old(self)@.render_cycle != u64::MAX,
            !(old(self)@.lcdc.spec_obj_enable() && old(self)@.lcdc.spec_obj_size() == 16),
        ensures
            final(self)@ == old(self)@.draw_line(),
            final(self)@.wf(),
    {
        if self.lcdc.bw_win_enable() {
            self.draw_background_line();
            if self.lcdc.window_enable() {
                self.draw_window_line();
            }
        }
        if self.lcdc.obj_enable() {
            self.draw_obj_line();
        }
    }

    /// Draws every scanline that has ended by `cycle` and was not drawn yet.
    /// Fails, and draws nothing, if a scanline is due while objects of 16 lines are enabled.
    pub fn render_until(&mut self, cycle: u64) -> (res: Result<(), Fault>)
        requires
            old(self)@.wf(),
        ensures
            final(self)@.wf(),
            res == (if old(self)@.render_fault(cycle) {
                Err::<(), Fault>(Fault::TallObjects)
            } else {
                Ok(())
            }),
            res is Ok ==> final(self)@ == old(self)@.render_until(cycle),
            res is Err ==> final(self)@ == old(self)@,
    {
        if !(self.render_cycle <= cycle && cycle - self.render_cycle >= CYCLES_PER_LINE) {
            return Ok(());
        }
        if self.lcdc.obj_enable() && self.lcdc.obj_size() == 16 {
            return Err(Fault::TallObjects);
        }
        let ghost v0 = self@;
        while self.render_cycle <= cycle && cycle - self.render_cycle >= CYCLES_PER_LINE
            invariant
                self@.wf(),
                self@.lcdc == v0.lcdc,
                !(v0.lcdc.spec_obj_enable() && v0.lcdc.spec_obj_size() == 16),
                self@.render_until(cycle) == v0.render_until(cycle),
            decreases self@.render_backlog(cycle),
        {
            let ghost before = self@;
            self.draw_line();
            let step: u64 = if self.line(self.render_cycle) == 143 {
                CYCLES_OVER_VBLANK
            } else {
                CYCLES_PER_LINE
            };
            self.render_cycle = self.render_cycle.saturating_add(step);
            proof {
                assert(self@ == before.render_line());
                if self@.render_cycle != u64::MAX {
                    lemma_next_line_aligned(before);
                }
            }
        }
        Ok(())
    }

    /// The picture as the LCD shows it by `cycle`, once every scanline that has ended by
    /// then is drawn. Fails if a scanline is due while objects of 16 lines are enabled.
    pub fn framebuffer(&mut self, cycle: u64) -> (res: Result<&[u8; 23040], Fault>)
        requires
            old(self)@.wf(),
        ensures
            final(self)@.wf(),
            res is Err <==> old(self)@.render_fault(cycle),
            res matches Err(fault) ==> fault == Fault::TallObjects && final(self)@ == old(self)@,
            res matches Ok(picture) ==> final(self)@ == old(self)@.render_until(cycle)
                && picture@ == final(self)@.framebuffer,
    {
        match self.render_until(cycle) {
            Ok(()) => Ok(&self.framebuffer),
            Err(fault) => Err(fault),
        }
    }

    /// Reads a byte of video RAM or OAM or a register of the video unit at `cycle`.
    pub fn read(&self, cycle: u64, addr: u16) -> (val: u8)
        requires
            in_video_space(addr),
        ensures
            val == self@.read(cycle, addr),
    {
        if 0x8000 <= addr && addr <= 0x9fff {
            self.video_ram[(addr - 0x8000) as usize]
        } else if 0xfe00 <= addr && addr <= 0xfe9f {
            self.oam[(addr - 0xfe00) as usize]
        } else if addr == 0xff40 {
            self.lcdc.0
        } else if addr == 0xff41 {
            let lym: u8 = if self.lyc == self.line(cycle) {
                4
            } else {
                0
            };
            let mode: u8 = match self.mode(cycle) {
                Mode::HBlank => 0,
                Mode::VBlank => 1,
                Mode::Drawing => 2,
                Mode::OamScan => 3,
            };
            lym + mode
        } else if addr == 0xff42 {
            self.scy
        } else if addr == 0xff43 {
            self.scx
        } else if addr == 0xff44 {
            self.line(cycle)
        } else if addr == 0xff45 {
            self.lyc
        } else if addr == 0xff47 {
            self.bgp
        } else if addr == 0xff48 {
            self.obp0
        } else if addr == 0xff49 {
            self.obp1
        } else if addr == 0xff4a {
            self.wy
        } else {
            self.wx
        }
    }

    /// Writes a byte of video RAM or OAM or a register of the video unit at `cycle`, after
    /// drawing every scanline that has ended by then.
    /// Fails, and changes nothing, if a scanline is due while objects of 16 lines are
    /// enabled, or if a nonzero value is written to STAT.
    pub fn write(&mut self, cycle: u64, addr: u16, val: u8) -> (res: Result<(), Fault>)
        requires
            old(self)@.wf(),
            in_video_space(addr),
        ensures
            final(self)@.wf(),
            res == (match old(self)@.write_fault(cycle, addr, val) {
                Some(fault) => Err::<(), Fault>(fault),
                None => Ok(()),
            }),
            res is Ok ==> final(self)@ == old(self)@.write(cycle, addr, val),
            res is Err ==> final(self)@ == old(self)@,
    {
        if addr == 0xff41 && val != 0 {
            let due = self.render_cycle <= cycle && cycle - self.render_cycle >= CYCLES_PER_LINE;
            if due && self.lcdc.obj_enable() && self.lcdc.obj_size() == 16 {
                return Err(Fault::TallObjects);
            }
            return Err(Fault::StatWrite(val));
        }
        match self.render_until(cycle) {
            Ok(()) => {},
            Err(fault) => {
                return Err(fault);
            },
        }
        if 0x8000 <= addr && addr <= 0x9fff {
            self.video_ram[(addr - 0x8000) as usize] = val;
        } else if 0xfe00 <= addr && addr <= 0xfe9f {
            self.oam[(addr - 0xfe00) as usize] = val;
        } else if addr == 0xff40 {
            let en_pre = self.lcdc.lcd_enable();
            self.lcdc = Lcdc(val);
            let en_post = self.lcdc.lcd_enable();
            if !en_pre && en_post {
                self.enable_cycle = cycle;
                self.render_cycle = cycle;
            }
            if en_pre && !en_post {
                self.enable_cycle = u64::MAX;
                self.render_cycle = u64::MAX;
            }
        } else if addr == 0xff42 {
            self.scy = val;
        } else if addr == 0xff43 {
            self.scx = val;
        } else if addr == 0xff45 {
            self.lyc = val;
        } else if addr == 0xff47 {
            self.bgp = val;
        } else if addr == 0xff48 {
            self.obp0 = val;
        } else if addr == 0xff49 {
            self.obp1 = val;
        } else if addr == 0xff4a {
            self.wy = val;
        } else if addr == 0xff4b {
            self.wx = val;
        }
        Ok(())
    }
}

/// After a scanline is drawn the next one to draw begins at the start of a visible line again.
pub proof fn lemma_next_line_aligned(v: VideoView)
    requires
        v.render_cycle != u64::MAX,
        v.render_aligned(),
        v.render_line().render_cycle != u64::MAX,
    ensures
        v.render_line().render_aligned(),
{
    let e = v.render_cycle - v.enable_cycle;
    let c = e % 70224;
    let l = c / 456;
    assert(c == 456 * l);
    if l == 143 {
        assert((e + 5016) % 70224 == 0) by {
            assert(e + 5016 == 70224 * (e / 70224 + 1));
        }
    } else {
        assert((e + 456) % 70224 == c + 456) by {
            assert(e + 456 == 70224 * (e / 70224) + (c + 456));
        }
    }
}

/// Drawing objects over a shade gives a shade.
pub proof fn lemma_objs_pixel_range(v: VideoView, n: nat, x: int, y: int, under: u8)
    requires
        under <= 3,
    ensures
        v.objs_pixel(n, x, y, under) <= 3,
    decreases n,
{
    if n > 0 {
        lemma_objs_pixel_range(v, (n - 1) as nat, x, y, under);
        let obj = v.oam_entry(n - 1);
        lemma_shade_range(
            if obj.spec_obp1() {
                v.obp1
            } else {
                v.obp0
            },
            v.obj_colour(n - 1, x, y),
        );
    }
}

/// Drawing a scanline changes nothing but the picture, which keeps its size and holds
/// shades only.
pub proof fn lemma_draw_line_keeps_state(v: VideoView)
    requires
        v.wf(),
    ensures
        v.draw_line() == v.set_framebuffer(v.draw_line().framebuffer),
        v.draw_line().framebuffer.len() == 23040,
        forall|i: int| 0 <= i < 23040 ==> #[trigger] v.draw_line().framebuffer[i] <= 3,
{
    let y = v.line(v.render_cycle);
    let v1 = if v.lcdc.spec_bw_win_enable() {
        v.set_framebuffer(v.with_background(y))
    } else {
        v
    };
    assert forall|i: int| 0 <= i < 23040 implies #[trigger] v1.framebuffer[i] <= 3 by {
        let sx = (i % 160 + v.scx) % 256;
        let sy = (y + v.scy) % 256;
        let idx = v.vram_at(v.lcdc.spec_background_tile_map_base() + (sy / 8) * 32 + sx / 8);
        let row = v.bg_win_row_addr(idx, sy % 8);
        lemma_shade_range(v.bgp, tile_colour(v.vram_at(row), v.vram_at(row + 1), sx % 8));
    }
    let v2 = if v.lcdc.spec_bw_win_enable() && v.lcdc.spec_window_enable() {
        v1.set_framebuffer(v1.with_window(y))
    } else {
        v1
    };
    assert forall|i: int| 0 <= i < 23040 implies #[trigger] v2.framebuffer[i] <= 3 by {
        let wx = i % 160 + 7 - v.wx;
        let wy = y - v.wy;
        let idx = v.vram_at(v.lcdc.spec_window_tile_map_base() + (wy / 8) * 32 + wx / 8);
        let row = v.bg_win_row_addr(idx, wy % 8);
        lemma_shade_range(v.bgp, tile_colour(v.vram_at(row), v.vram_at(row + 1), wx % 8));
    }
    if v.lcdc.spec_obj_enable() {
        assert forall|i: int| 0 <= i < 23040 implies #[trigger] v2.with_objects(y)[i] <= 3 by {
            lemma_objs_pixel_range(v2, 40, i % 160, y, v2.framebuffer[i]);
        }
    }
}

/// Rendering changes nothing but the picture and the place of the next scanline to draw,
/// and it keeps the state valid.
pub proof fn lemma_render_keeps_state(v: VideoView, cycle: u64)
    requires
        v.wf(),
    ensures
        v.render_until(cycle).wf(),
        v.render_until(cycle) == (VideoView {
            framebuffer: v.render_until(cycle).framebuffer,
            render_cycle: v.render_until(cycle).render_cycle,
            ..v
        }),
        v.render_until(cycle).render_cycle >= v.render_cycle,
    decreases v.render_backlog(cycle),
{
    if v.line_due(cycle) {
        lemma_draw_line_keeps_state(v);
        if v.render_line().render_cycle != u64::MAX {
            lemma_next_line_aligned(v);
        }
        lemma_render_keeps_state(v.render_line(), cycle);
    }
}

/// While the LCD is on, it raises the vertical blank interrupt at the cycle that
/// `next_pending` gives: that cycle is not before `cycle` and less than two frames later,
/// and it is `cycle` itself or the very start of line 144. This holds wherever the last
/// acknowledgement does not lie after `cycle` and the counter does not end first.
pub proof fn lemma_next_pending_is_due(v: VideoView, cycle: u64)
    requires
        v.enable_cycle <= cycle,
        cycle + 2 * 70224 <= u64::MAX,
        v.irq_acknowledge_cycle matches Some(at) ==> at <= cycle,
    ensures
        cycle <= v.next_pending(cycle) < cycle + 2 * 70224,
        v.vblank_due(v.next_pending(cycle)),
        v.next_pending(cycle) == cycle || v.cycle_in_frame(v.next_pending(cycle)) == 65664,
        v.next_pending(cycle) == cycle <==> v.vblank_due(cycle),
{
    let e = cycle - v.enable_cycle;
    let c = e % 70224;
    if !v.vblank_due(cycle) {
        if c < 65664 && !v.vblank_acknowledged(cycle) {
            let wait = 65664 - c;
            assert((e + wait) % 70224 == 65664 && (e + wait) / 70224 == e / 70224) by {
                assert(e + wait == 70224 * (e / 70224) + 65664);
            }
        } else {
            let wait = 65664 + 70224 - c;
            assert((e + wait) % 70224 == 65664 && (e + wait) / 70224 == e / 70224 + 1) by {
                assert(e + wait == 70224 * (e / 70224 + 1) + 65664);
            }
            match v.irq_acknowledge_cycle {
                Some(at) => {
                    assert(v.frame(at) <= v.frame(cycle));
                },
                None => {},
            }
        }
    }
}

/// The two low bits of a byte below 4.
pub proof fn lemma_low_two_bits(bits: u8)
    by (bit_vector)
    requires
        bits <= 3,
    ensures
        (bits & 0x01 != 0) <==> (bits == 1 || bits == 3),
        (bits & 0x02 != 0) <==> (bits == 2 || bits == 3),
{
}

/// The vertical blank interrupt is pending exactly if its bit was set by hand, or the
/// frame has entered its vertical blank and the bit was not cleared by hand in that frame.
/// The LCD interrupt is pending exactly if its bit was set by hand.
pub proof fn lemma_vblank_pending(v: VideoView, cycle: u64)
    ensures
        v.pending(cycle).spec_is_set(Interrupt::VBlank) <==> (v.irq_vblank_pending || (v.line(cycle)
            >= 144 && !v.vblank_acknowledged(cycle))),
        v.pending(cycle).spec_is_set(Interrupt::Lcd) <==> v.irq_stat_pending,
        v.irq_acknowledge_cycle is None ==> !v.vblank_acknowledged(cycle),
{
    lemma_low_two_bits(v.pending(cycle).0);
}

/// Clearing the vertical blank bit by hand during a vertical blank ends the interrupt for
/// the rest of that frame, and the next frame raises it again.
pub proof fn lemma_acknowledge_ends_vblank(v: VideoView, cycle: u64, mask: InterruptMask, later: u64)
    requires
        !mask.spec_is_set(Interrupt::VBlank),
    ensures
        v.frame(later) == v.frame(cycle) ==> !v.set_pending(cycle, mask).pending(later).spec_is_set(
            Interrupt::VBlank,
        ),
        v.frame(later) != v.frame(cycle) && v.line(later) >= 144 ==> v.set_pending(
            cycle,
            mask,
        ).pending(later).spec_is_set(Interrupt::VBlank),
{
    lemma_vblank_pending(v.set_pending(cycle, mask), later);
}

impl InterruptSource for Video {
    open spec fn source_wf(&self) -> bool {
        self@.wf()
    }

    open spec fn pending_at(&self, cycle: u64) -> InterruptMask {
        self@.pending(cycle)
    }

    open spec fn next_pending_at(&self, cycle: u64) -> u64 {
        self@.next_pending(cycle)
    }

    open spec fn acknowledged(&self, cycle: u64, mask: InterruptMask, after: &Self) -> bool {
        after@ == self@.set_pending(cycle, mask)
    }

    fn pending(&self, cycle: u64) -> (mask: InterruptMask) {
        let vblank: u8 = if self.irq_vblank_pending || self.vblank_due(cycle) {
            0x01
        } else {
            0
        };
        let stat: u8 = if self.irq_stat_pending {
            0x02
        } else {
            0
        };
        InterruptMask(vblank + stat)
    }

    fn set_pending(&mut self, cycle: u64, mask: InterruptMask) {
        self.irq_vblank_pending = mask.is_set(Interrupt::VBlank);
        self.irq_stat_pending = mask.is_set(Interrupt::Lcd);
        if !self.irq_vblank_pending {
            self.irq_acknowledge_cycle = Some(cycle);
        }
    }

    fn next_pending(&self, cycle: u64) -> (next: u64) {
        if self.enable_cycle == u64::MAX {
            return u64::MAX;
        }
        if self.vblank_due(cycle) {
            return cycle;
        }
        let cycle_in_frame = self.cycle_in_frame(cycle);
        let wait = if cycle_in_frame < VBLANK_START && !self.vblank_acknowledged(cycle) {
            VBLANK_START - cycle_in_frame
        } else {
            VBLANK_START + CYCLES_PER_FRAME - cycle_in_frame
        };
        cycle.saturating_add(wait)
    }
}

} // verus!
