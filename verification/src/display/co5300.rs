//! CO5300 QSPI AMOLED display driver - framebuffer-based.
//!
//! The driver holds a mutable reference to a framebuffer slice provided
//! by the caller. All drawing operations are writes into the framebuffer:
//! no bus I/O, no waiting. When the scene is ready, [`CO5300::flush_tile`]
//! gives the bus operations that push the framebuffer to panel rows
//! `[tile_y, tile_y + fb_rows)`.
//!
//! The framebuffer can be sized for the full panel ([`FB_BYTES`]) or any
//! whole-row partial window ([`fb_bytes_for_rows`]). Callers always pass
//! panel-absolute coordinates to draw calls; the driver subtracts the
//! current `tile_y` and clips to the framebuffer. A renderer that loops
//! `tile_y` across the panel in steps of `fb_rows` covers the whole
//! screen.
//!
//! Wire format: control commands have opcode 0x02 and data on one wire,
//! pixels opcode 0x32 and data on four wires; the address is the DCS
//! command shifted left by 8. The opcode 0x38 (Enter Quad SPI) is never
//! sent: it breaks the mixed opcode approach.

use vstd::prelude::*;
use super::blend::{
    blend565, blend_endpoints, blended, blended_at_the_ends, dotted, gradient, gradient_at, larger, pack565, painted,
    smaller, within, BlendTarget, Dot, Rect, Rgb565,
};
use super::cmd;

verus! {

/// Display resolution.
pub const WIDTH: u16 = 410;
pub const HEIGHT: u16 = 502;

/// Framebuffer size in bytes for a full-panel buffer (RGB565, 2 bytes per
/// pixel).
pub const FB_BYTES: usize = 410 * 502 * 2;

/// The framebuffer byte count for a partial-height buffer covering `rows`
/// rows of the panel.
pub fn fb_bytes_for_rows(rows: u16) -> (n: usize)
    ensures
        n == 410 * rows * 2,
{
    410 * rows as usize * 2
}

/// Column offset applied by this panel inside the CO5300 frame buffer.
const COL_OFFSET: u16 = 22;

/// Display orientation / mirroring sent as the MADCTL parameter.
///
/// The CO5300 MADCTL only implements MY (bit7), MX (bit6), and RGB
/// (bit3). There is no MV bit - true 90/270 degree rotation requires
/// software transposition.
#[derive(Debug, Clone, Copy, PartialEq, Eq, Structural, Default)]
pub enum Rotation {
    #[default]
    Normal,
    MirrorX,
    MirrorY,
    Deg180,
}

impl Rotation {
    /// The MADCTL parameter.
    pub open spec fn madctl(self) -> u8 {
        match self {
            Rotation::Normal => 0x00,
            Rotation::MirrorX => 0x40,
            Rotation::MirrorY => 0x80,
            Rotation::Deg180 => 0xC0,
        }
    }

    pub fn bits(self) -> (r: u8)
        ensures
            r == self.madctl(),
    {
        match self {
            Rotation::Normal => 0x00,
            Rotation::MirrorX => 0x40,
            Rotation::MirrorY => 0x80,
            Rotation::Deg180 => 0xC0,
        }
    }
}

/// One operation for the owner of the panel's bus and reset pin. A failed
/// operation is logged and the next one done.
#[derive(Debug)]
pub enum PanelOp {
    /// Drive the reset pin: `true` high, `false` low.
    Reset(bool),
    /// Send a DCS command with its parameters.
    Command { command: u8, params: Vec<u8> },
    /// Write the bytes `start .. end` of the framebuffer as pixels.
    Pixels { first: bool, start: usize, end: usize },
    /// Wait for a pixel write that is still under way to finish.
    Drain,
}

/// What a [`PanelOp`] asks for.
pub ghost enum Panel {
    Reset(bool),
    Command { command: u8, params: Seq<u8> },
    Pixels { first: bool, start: int, end: int },
    Drain,
}

impl View for PanelOp {
    type V = Panel;

    open spec fn view(&self) -> Panel {
        match *self {
            PanelOp::Reset(level) => Panel::Reset(level),
            PanelOp::Command { command, params } => Panel::Command { command, params: params@ },
            PanelOp::Pixels { first, start, end } => Panel::Pixels { first, start: start as int, end: end as int },
            PanelOp::Drain => Panel::Drain,
        }
    }
}

/// What a list of operations asks for.
pub open spec fn ops_view(ops: Seq<PanelOp>) -> Seq<Panel> {
    ops.map_values(|op: PanelOp| op@)
}

/// A DCS command.
pub open spec fn dcs(command: u8, params: Seq<u8>) -> Panel {
    Panel::Command { command, params }
}

/// The commands that select the window of `w` columns and `h` rows at
/// `(x, y)`, first and last column and row in big-endian order.
pub open spec fn window(x: int, y: int, w: int, h: int) -> Seq<Panel> {
    let (x0, x1) = (x + 22, x + w - 1 + 22);
    let (y0, y1) = (y, y + h - 1);
    seq![
        dcs(cmd::CASET, seq![(x0 / 256) as u8, (x0 % 256) as u8, (x1 / 256) as u8, (x1 % 256) as u8]),
        dcs(cmd::RASET, seq![(y0 / 256) as u8, (y0 % 256) as u8, (y1 / 256) as u8, (y1 % 256) as u8]),
    ]
}

/// One command as an operation list.
fn one(command: u8, params: Vec<u8>) -> (ops: Vec<PanelOp>)
    ensures
        ops_view(ops@) == seq![dcs(command, params@)],
{
    let ops: Vec<PanelOp> = vec![PanelOp::Command { command, params }];
    assert(ops_view(ops@) =~= seq![dcs(command, params@)]);
    ops
}

/// CO5300 driver.
///
/// `'fb` is the lifetime of the caller-provided framebuffer slice.
pub struct CO5300<'fb> {
    framebuffer: &'fb mut [u8],
    /// Number of full panel rows that fit in `framebuffer`.
    fb_rows: u16,
    /// Panel-y of FB row 0.
    tile_y: u16,
}

impl<'fb> CO5300<'fb> {
    /// The framebuffer is a whole number of panel rows, at most the
    /// panel, and starts on an even row.
    #[verifier::type_invariant]
    spec fn whole_rows(self) -> bool {
        &&& self.framebuffer@.len() == self.fb_rows * 820
        &&& self.fb_rows <= 502
        &&& self.tile_y % 2 == 0
    }

    /// The bytes of the framebuffer.
    pub closed spec fn bytes(&self) -> Seq<u8> {
        self.framebuffer@
    }

    /// The number of panel rows the framebuffer covers.
    pub closed spec fn rows(&self) -> int {
        self.fb_rows as int
    }

    /// The panel row of framebuffer row 0.
    pub closed spec fn top(&self) -> int {
        self.tile_y as int
    }

    /// The framebuffer holds column `u` of panel row `v`.
    pub open spec fn holds(&self, u: int, v: int) -> bool {
        0 <= u < 410 && self.top() <= v < self.top() + self.rows()
    }

    /// The packed pixel at panel-absolute `(u, v)`: two bytes of the
    /// framebuffer, the high one first.
    pub open spec fn at(&self, u: int, v: int) -> Option<u16> {
        if self.holds(u, v) {
            let i = ((v - self.top()) * 410 + u) * 2;
            Some((self.bytes()[i] * 256 + self.bytes()[i + 1]) as u16)
        } else {
            None
        }
    }

    /// Create a new driver.
    ///
    /// `framebuffer` length must be a whole number of panel rows (`WIDTH
    /// * 2` bytes each) and at most [`FB_BYTES`] (the full panel).
    pub fn new(framebuffer: &'fb mut [u8]) -> (r: CO5300<'fb>)
        requires
            old(framebuffer)@.len() % 820 == 0,
            old(framebuffer)@.len() <= FB_BYTES,
        ensures
            r.bytes() == old(framebuffer)@,
            r.rows() == old(framebuffer)@.len() / 820,
            r.top() == 0,
    {
        let fb_rows: u16 = (framebuffer.len() / 820) as u16;
        CO5300 { framebuffer, fb_rows, tile_y: 0 }
    }

    /// Number of panel rows covered by this driver's framebuffer.
    pub fn fb_rows(&self) -> (r: u16)
        ensures
            r == self.rows(),
    {
        self.fb_rows
    }

    /// Move the framebuffer's window to a new panel-y position. Must be
    /// even: the panel requires 2-row-aligned address windows.
    pub fn set_tile_y(&mut self, panel_y: u16)
        requires
            panel_y % 2 == 0,
        ensures
            final(self).top() == panel_y,
            final(self).rows() == old(self).rows(),
            final(self).bytes() == old(self).bytes(),
    {
        proof {
            use_type_invariant(&*self);
        }
        self.tile_y = panel_y;
    }

    /// Current panel-y of FB row 0. See [`Self::set_tile_y`].
    pub fn tile_y(&self) -> (r: u16)
        ensures
            r == self.top(),
    {
        self.tile_y
    }

    /// Read-only access to the framebuffer.
    pub fn framebuffer(&self) -> (r: &[u8])
        ensures
            r@ == self.bytes(),
            r@.len() == self.rows() * 820,
    {
        proof {
            use_type_invariant(&*self);
        }
        self.framebuffer
    }

    // ---- Reset, power, configuration ----------------------------------------

    /// Drive the reset pin high.
    pub fn reset_high(&mut self) -> (op: PanelOp)
        ensures
            op == PanelOp::Reset(true),
            *final(self) == *old(self),
    {
        PanelOp::Reset(true)
    }

    /// Drive the reset pin low.
    pub fn reset_low(&mut self) -> (op: PanelOp)
        ensures
            op == PanelOp::Reset(false),
            *final(self) == *old(self),
    {
        PanelOp::Reset(false)
    }

    /// The configuration commands. Call order: hardware reset (low then
    /// high, 120 ms settle), `init`, `wake` + 120 ms, `display_on` + 70
    /// ms. `brightness` is the initial backlight register value.
    pub fn init(&self, brightness: u8) -> (ops: Vec<PanelOp>)
        ensures
            ops_view(ops@) == seq![
                dcs(0xC4, seq![0x80u8]),
                dcs(cmd::PIXFMT, seq![0x55u8]),
                dcs(0x35, seq![0x00u8]),
                dcs(0x53, seq![0x20u8]),
                dcs(cmd::BRIGHTNESS, seq![brightness]),
                dcs(0x63, seq![0xFFu8]),
            ],
    {
        let enable: Vec<u8> = vec![0x80];
        let format: Vec<u8> = vec![0x55];
        let tearing: Vec<u8> = vec![0x00];
        let control: Vec<u8> = vec![0x20];
        let level: Vec<u8> = vec![brightness];
        let hbm: Vec<u8> = vec![0xFF];
        assert(enable@ =~= seq![0x80u8] && format@ =~= seq![0x55u8] && tearing@ =~= seq![0x00u8]);
        assert(control@ =~= seq![0x20u8] && level@ =~= seq![brightness] && hbm@ =~= seq![0xFFu8]);
        let ops: Vec<PanelOp> = vec![
            // enable QSPI opcode 0x32
            PanelOp::Command { command: 0xC4, params: enable },
            // RGB565 (16 bpp)
            PanelOp::Command { command: cmd::PIXFMT, params: format },
            // tearing effect on, mode 0
            PanelOp::Command { command: 0x35, params: tearing },
            // BC_EN=1
            PanelOp::Command { command: 0x53, params: control },
            PanelOp::Command { command: cmd::BRIGHTNESS, params: level },
            // HBM max
            PanelOp::Command { command: 0x63, params: hbm },
        ];
        assert(ops_view(ops@) =~= seq![
            dcs(0xC4, seq![0x80u8]),
            dcs(cmd::PIXFMT, seq![0x55u8]),
            dcs(0x35, seq![0x00u8]),
            dcs(0x53, seq![0x20u8]),
            dcs(cmd::BRIGHTNESS, seq![brightness]),
            dcs(0x63, seq![0xFFu8]),
        ]);
        ops
    }

    /// Enter sleep mode. Wait at least 5 ms before any next command, and
    /// at least 120 ms after `wake` before this.
    pub fn sleep(&self) -> (ops: Vec<PanelOp>)
        ensures
            ops_view(ops@) == seq![dcs(cmd::SLPIN, Seq::empty())],
    {
        one(cmd::SLPIN, Vec::new())
    }

    /// Exit sleep mode. Push pixels only after a 120 ms settle.
    pub fn wake(&self) -> (ops: Vec<PanelOp>)
        ensures
            ops_view(ops@) == seq![dcs(cmd::SLPOUT, Seq::empty())],
    {
        one(cmd::SLPOUT, Vec::new())
    }

    /// Turn pixels on (display visible).
    pub fn display_on(&self) -> (ops: Vec<PanelOp>)
        ensures
            ops_view(ops@) == seq![dcs(cmd::DISPON, Seq::empty())],
    {
        one(cmd::DISPON, Vec::new())
    }

    /// Turn pixels off (panel blanked, backlight on).
    pub fn display_off(&self) -> (ops: Vec<PanelOp>)
        ensures
            ops_view(ops@) == seq![dcs(cmd::DISPOFF, Seq::empty())],
    {
        one(cmd::DISPOFF, Vec::new())
    }

    /// Set display brightness (0 = off, 255 = maximum).
    pub fn set_brightness(&self, brightness: u8) -> (ops: Vec<PanelOp>)
        ensures
            ops_view(ops@) == seq![dcs(cmd::BRIGHTNESS, seq![brightness])],
    {
        let params: Vec<u8> = vec![brightness];
        assert(params@ =~= seq![brightness]);
        one(cmd::BRIGHTNESS, params)
    }

    /// Set display orientation. See [`Rotation`] for available modes.
    pub fn set_rotation(&self, rotation: Rotation) -> (ops: Vec<PanelOp>)
        ensures
            ops_view(ops@) == seq![dcs(cmd::MADCTL, seq![rotation.madctl()])],
    {
        let params: Vec<u8> = vec![rotation.bits()];
        assert(params@ =~= seq![rotation.madctl()]);
        one(cmd::MADCTL, params)
    }

    /// One raw MIPI DCS command with optional parameters.
    pub fn write_cmd(&self, command: u8, params: &[u8]) -> (ops: Vec<PanelOp>)
        ensures
            ops_view(ops@) == seq![dcs(command, params@)],
    {
        one(command, vstd::slice::slice_to_vec(params))
    }

    // ---- Flush --------------------------------------------------------------

    fn set_addr_window(&self, x: u16, y: u16, w: u16, h: u16) -> (ops: Vec<PanelOp>)
        requires
            0 < x + w <= 0xFFFF - 22,
            0 < y + h <= 0xFFFF,
        ensures
            ops_view(ops@) == window(x as int, y as int, w as int, h as int),
    {
        let x0: u16 = x + COL_OFFSET;
        let x1: u16 = x + w - 1 + COL_OFFSET;
        let y0: u16 = y;
        let y1: u16 = y + h - 1;
        let cols: Vec<u8> = vec![(x0 / 256) as u8, (x0 % 256) as u8, (x1 / 256) as u8, (x1 % 256) as u8];
        let rows: Vec<u8> = vec![(y0 / 256) as u8, (y0 % 256) as u8, (y1 / 256) as u8, (y1 % 256) as u8];
        assert(cols@ =~= seq![(x0 / 256) as u8, (x0 % 256) as u8, (x1 / 256) as u8, (x1 % 256) as u8]);
        assert(rows@ =~= seq![(y0 / 256) as u8, (y0 % 256) as u8, (y1 / 256) as u8, (y1 % 256) as u8]);
        let ops: Vec<PanelOp> = vec![
            PanelOp::Command { command: cmd::CASET, params: cols },
            PanelOp::Command { command: cmd::RASET, params: rows },
        ];
        assert(ops_view(ops@) =~= window(x as int, y as int, w as int, h as int));
        ops
    }

    /// The operations that push framebuffer rows `first .. first + h` to
    /// the window whose first row is `y`.
    pub open spec fn push(y: int, first: int, h: int) -> Seq<Panel> {
        window(0, y, 410, h).push(Panel::Pixels { first: true, start: first * 820, end: (first + h) * 820 })
    }

    /// Send a horizontal band of the framebuffer to the display.
    ///
    /// Rows `[y0, y1)` are FB-local and panel-local at the same time: FB
    /// row `y` goes to panel row `y`, whatever `tile_y` is.
    ///
    /// The panel packs pixels in 2x1 units internally and requires the
    /// row window to be aligned to 2-row pairs. So `y0` is rounded down
    /// to the nearest even row and `y1` is rounded up, so the band pushed
    /// always covers the requested range.
    pub fn flush_rows(&self, y0: u16, y1: u16) -> (ops: Vec<PanelOp>)
        requires
            y1 < 0xFFFF || y0 >= self.rows(),
        ensures
            ops_view(ops@) == if y1 <= y0 || y0 >= self.rows() {
                Seq::empty()
            } else {
                let (first, n) = band_rows(y0 as int, y1 as int, self.rows());
                Self::push(first, first, n)
            },
    {
        proof {
            use_type_invariant(&*self);
        }
        if y1 <= y0 || y0 >= self.fb_rows {
            let ops: Vec<PanelOp> = Vec::new();
            assert(ops_view(ops@) =~= Seq::empty());
            return ops;
        }
        let first: u16 = y0 - y0 % 2;
        let rounded: u16 = y1 + y1 % 2;
        let end: u16 = if rounded < self.fb_rows { rounded } else { self.fb_rows };
        let mut ops: Vec<PanelOp> = self.set_addr_window(0, first, WIDTH, end - first);
        let ghost head = ops@;
        ops.push(PanelOp::Pixels { first: true, start: first as usize * 820, end: end as usize * 820 });
        assert(ops_view(ops@) =~= ops_view(head).push(
            Panel::Pixels { first: true, start: first * 820, end: end * 820 },
        ));
        ops
    }

    /// Wait for any pixel write started by a previous
    /// [`Self::flush_tile`] to finish. Call at the end of a render frame
    /// so the bus is idle before other code paths (display power
    /// transitions, brightness writes) touch it.
    pub fn flush_pending(&self) -> (op: PanelOp)
        ensures
            op == PanelOp::Drain,
    {
        PanelOp::Drain
    }

    /// Push the framebuffer to panel rows `[tile_y, tile_y + fb_rows)`.
    ///
    /// For the short final tile that overlaps the bottom of the panel
    /// only the rows that fit on the panel are pushed; the rest of the
    /// framebuffer is ignored.
    pub fn flush_tile(&self) -> (ops: Vec<PanelOp>)
        requires
            self.top() + self.rows() > 0,
        ensures
            ops_view(ops@) == if self.top() >= 502 {
                Seq::empty()
            } else {
                Self::push(self.top(), 0, tile_rows(self.top(), self.rows()).1)
            },
    {
        proof {
            use_type_invariant(&*self);
        }
        if self.tile_y >= HEIGHT {
            let ops: Vec<PanelOp> = Vec::new();
            assert(ops_view(ops@) =~= Seq::empty());
            return ops;
        }
        let left: u16 = HEIGHT - self.tile_y;
        let panel_rows: u16 = if left < self.fb_rows { left } else { self.fb_rows };
        let mut ops: Vec<PanelOp> = self.set_addr_window(0, self.tile_y, WIDTH, panel_rows);
        let ghost head = ops@;
        ops.push(PanelOp::Pixels { first: true, start: 0, end: panel_rows as usize * 820 });
        assert(ops_view(ops@) =~= ops_view(head).push(Panel::Pixels { first: true, start: 0, end: panel_rows * 820 }));
        ops
    }

    // ---- Drawing ------------------------------------------------------------

    /// Write a packed RGB565 value at a position that the framebuffer
    /// holds.
    fn put(&mut self, x: u32, y: u32, c: u16)
        requires
            old(self).holds(x as int, y as int),
        ensures
            final(self).top() == old(self).top(),
            final(self).rows() == old(self).rows(),
            forall|u: int, v: int| #[trigger]
                final(self).at(u, v) == painted(old(self).at(u, v), u == x && v == y, c),
    {
        proof {
            use_type_invariant(&*self);
        }
        let row: usize = y as usize - self.tile_y as usize;
        let i: usize = (row * 410 + x as usize) * 2;
        self.framebuffer[i] = (c / 256) as u8;
        self.framebuffer[i + 1] = (c % 256) as u8;
        proof {
            assert forall|u: int, v: int| #[trigger] self.at(u, v) == painted(
                old(self).at(u, v),
                u == x && v == y,
                c,
            ) by {
                if self.holds(u, v) {
                    let j = ((v - self.top()) * 410 + u) * 2;
                    assert(0 <= j && j + 1 < self.bytes().len());
                    assert(j != i + 1 && j + 1 != i);
                    if j == i {
                        assert(u == x && v == y);
                    }
                }
            }
        }
    }

    /// Read the packed RGB565 value at a position that the framebuffer
    /// holds.
    fn get(&self, x: u32, y: u32) -> (c: u16)
        requires
            self.holds(x as int, y as int),
        ensures
            self.at(x as int, y as int) == Some(c),
    {
        proof {
            use_type_invariant(&*self);
        }
        let row: usize = y as usize - self.tile_y as usize;
        let i: usize = (row * 410 + x as usize) * 2;
        self.framebuffer[i] as u16 * 256 + self.framebuffer[i + 1] as u16
    }

    /// Clip the columns `x .. x + w` and rows `y .. y + h` to the
    /// framebuffer. Returns `(cx0, cx1, cy0, cy1)` in panel coordinates,
    /// or `None` when the rectangle misses the framebuffer entirely.
    fn clip_rect(&self, x: i64, y: i64, w: i64, h: i64) -> (r: Option<(u32, u32, u32, u32)>)
        requires
            -0x1_0000_0000 <= x <= 0x1_0000_0000,
            -0x1_0000_0000 <= y <= 0x1_0000_0000,
            -0x1_0000_0000 <= w <= 0x1_0000_0000,
            -0x1_0000_0000 <= h <= 0x1_0000_0000,
        ensures
            ({
                let left = larger(x as int, 0);
                let right = smaller(x + w, 410);
                let upper = larger(y as int, self.top());
                let lower = smaller(y + h, self.top() + self.rows());
                match r {
                    Some(c) => {
                        &&& left < right && upper < lower
                        &&& c.0 == left && c.1 == right && c.2 == upper && c.3 == lower
                        &&& c.3 <= 0x1_0000 + 502
                    },
                    None => left >= right || upper >= lower,
                }
            }),
    {
        proof {
            use_type_invariant(&*self);
        }
        let ty: i64 = self.tile_y as i64;
        let bottom: i64 = ty + self.fb_rows as i64;
        let cx0: i64 = if x > 0 { x } else { 0 };
        let cx1: i64 = if x + w < 410 { x + w } else { 410 };
        let cy0: i64 = if y > ty { y } else { ty };
        let cy1: i64 = if y + h < bottom { y + h } else { bottom };
        if cx0 >= cx1 || cy0 >= cy1 {
            None
        } else {
            Some((cx0 as u32, cx1 as u32, cy0 as u32, cy1 as u32))
        }
    }

    /// Fill the columns `x0 .. x1` of the rows `y0 .. y1`, all held by
    /// the framebuffer.
    fn fill_held(&mut self, x0: u32, x1: u32, y0: u32, y1: u32, c: u16)
        requires
            x0 < x1 <= 410,
            old(self).top() <= y0 < y1 <= old(self).top() + old(self).rows(),
            y1 <= 0x1_0000 + 502,
        ensures
            final(self).top() == old(self).top(),
            final(self).rows() == old(self).rows(),
            forall|u: int, v: int| #[trigger]
                final(self).at(u, v) == painted(old(self).at(u, v), x0 <= u < x1 && y0 <= v < y1, c),
    {
        let mut y: u32 = y0;
        while y < y1
            invariant
                x0 < x1 <= 410,
                y0 <= y <= y1 <= 0x1_0000 + 502,
                old(self).top() <= y0,
                y1 <= old(self).top() + old(self).rows(),
                self.top() == old(self).top(),
                self.rows() == old(self).rows(),
                forall|u: int, v: int| #[trigger]
                    self.at(u, v) == painted(old(self).at(u, v), x0 <= u < x1 && y0 <= v < y, c),
            decreases y1 - y,
        {
            let mut x: u32 = x0;
            while x < x1
                invariant
                    x0 <= x <= x1 <= 410,
                    y0 <= y < y1 <= 0x1_0000 + 502,
                    old(self).top() <= y0,
                    y1 <= old(self).top() + old(self).rows(),
                    self.top() == old(self).top(),
                    self.rows() == old(self).rows(),
                    forall|u: int, v: int| #[trigger]
                        self.at(u, v) == painted(
                            old(self).at(u, v),
                            (x0 <= u < x1 && y0 <= v < y) || (v == y && x0 <= u < x),
                            c,
                        ),
                decreases x1 - x,
            {
                let ghost before = *self;
                self.put(x, y, c);
                proof {
                    assert forall|u: int, v: int| #[trigger] self.at(u, v) == painted(
                        old(self).at(u, v),
                        (x0 <= u < x1 && y0 <= v < y) || (v == y && x0 <= u < x + 1),
                        c,
                    ) by {
                        assert(before.at(u, v) == before.at(u, v));
                    }
                }
                x = x + 1;
            }
            y = y + 1;
        }
    }

    /// Fill a panel-absolute rectangle with a single RGB565 colour. Y is
    /// translated by `tile_y` and clipped to the framebuffer.
    pub fn fill_solid(&mut self, x: u16, y: u16, w: u16, h: u16, color: u16)
        ensures
            final(self).top() == old(self).top(),
            final(self).rows() == old(self).rows(),
            forall|u: int, v: int| #[trigger]
                final(self).at(u, v) == painted(
                    old(self).at(u, v),
                    within(u, v, x as int, y as int, w as int, h as int),
                    color,
                ),
    {
        match self.clip_rect(x as i64, y as i64, w as i64, h as i64) {
            Some((cx0, cx1, cy0, cy1)) => self.fill_held(cx0, cx1, cy0, cy1, color),
            None => {},
        }
    }

    /// The value that a blit of `pixels`, in rows of `w` from `(x, y)`,
    /// has for `(u, v)`.
    pub open spec fn source(u: int, v: int, x: int, y: int, w: int) -> int {
        (v - y) * w + (u - x)
    }

    /// Blit a rectangle of RGB565 pixels from a slice into a
    /// panel-absolute rectangle. Y is translated by `tile_y` and the
    /// rectangle is clipped to the framebuffer; source pixels for
    /// clipped-away cells are skipped.
    ///
    /// `pixels` is meant to hold `w * h` values; where it holds fewer,
    /// the cells that have none keep their pixel.
    pub fn draw_raw(&mut self, x: u16, y: u16, w: u16, h: u16, pixels: &[u16])
        ensures
            final(self).top() == old(self).top(),
            final(self).rows() == old(self).rows(),
            forall|u: int, v: int| #[trigger]
                final(self).at(u, v) == painted(
                    old(self).at(u, v),
                    within(u, v, x as int, y as int, w as int, h as int) && Self::source(
                        u,
                        v,
                        x as int,
                        y as int,
                        w as int,
                    ) < pixels@.len(),
                    pixels@[Self::source(u, v, x as int, y as int, w as int)],
                ),
    {
        let (cx0, cx1, cy0, cy1) = match self.clip_rect(x as i64, y as i64, w as i64, h as i64) {
            Some(c) => c,
            None => return,
        };
        let mut py: u32 = cy0;
        while py < cy1
            invariant
                cx0 < cx1 <= 410,
                x <= cx0,
                cx1 <= x + w,
                y <= cy0 <= py <= cy1 <= y + h,
                cy1 <= 0x1_0000 + 502,
                old(self).top() <= cy0,
                cy1 <= old(self).top() + old(self).rows(),
                self.top() == old(self).top(),
                self.rows() == old(self).rows(),
                forall|u: int, v: int| #[trigger]
                    self.at(u, v) == painted(
                        old(self).at(u, v),
                        cx0 <= u < cx1 && cy0 <= v < py && Self::source(u, v, x as int, y as int, w as int)
                            < pixels@.len(),
                        pixels@[Self::source(u, v, x as int, y as int, w as int)],
                    ),
            decreases cy1 - py,
        {
            let mut px: u32 = cx0;
            while px < cx1
                invariant
                    cx0 <= px <= cx1 <= 410,
                    x <= cx0,
                    cx1 <= x + w,
                    y <= cy0 <= py < cy1 <= y + h,
                    cy1 <= 0x1_0000 + 502,
                    old(self).top() <= cy0,
                    cy1 <= old(self).top() + old(self).rows(),
                    self.top() == old(self).top(),
                    self.rows() == old(self).rows(),
                    forall|u: int, v: int| #[trigger]
                        self.at(u, v) == painted(
                            old(self).at(u, v),
                            ((cx0 <= u < cx1 && cy0 <= v < py) || (v == py && cx0 <= u < px)) && Self::source(
                                u,
                                v,
                                x as int,
                                y as int,
                                w as int,
                            ) < pixels@.len(),
                            pixels@[Self::source(u, v, x as int, y as int, w as int)],
                        ),
                decreases cx1 - px,
            {
                let ghost before = *self;
                let line: u64 = (py - y as u32) as u64;
                assert(0 <= line * w <= 0xFFFF * 0xFFFF) by (nonlinear_arith)
                    requires
                        0 <= line <= 0xFFFF,
                        0 <= w <= 0xFFFF,
                ;
                let src: u64 = line * w as u64 + (px - x as u32) as u64;
                assert(src == Self::source(px as int, py as int, x as int, y as int, w as int));
                if src < pixels.len() as u64 {
                    self.put(px, py, pixels[src as usize]);
                }
                proof {
                    assert forall|u: int, v: int| #[trigger] self.at(u, v) == painted(
                        old(self).at(u, v),
                        ((cx0 <= u < cx1 && cy0 <= v < py) || (v == py && cx0 <= u < px + 1)) && Self::source(
                            u,
                            v,
                            x as int,
                            y as int,
                            w as int,
                        ) < pixels@.len(),
                        pixels@[Self::source(u, v, x as int, y as int, w as int)],
                    ) by {
                        assert(before.at(u, v) == before.at(u, v));
                    }
                }
                px = px + 1;
            }
            py = py + 1;
        }
    }

    /// Write a single panel-absolute pixel into the framebuffer.
    pub fn draw_pixel(&mut self, x: u16, y: u16, color: u16)
        ensures
            final(self).top() == old(self).top(),
            final(self).rows() == old(self).rows(),
            forall|u: int, v: int| #[trigger]
                final(self).at(u, v) == painted(old(self).at(u, v), u == x && v == y, color),
    {
        proof {
            use_type_invariant(&*self);
        }
        if x < WIDTH && y >= self.tile_y && (y - self.tile_y) < self.fb_rows {
            self.put(x as u32, y as u32, color);
        }
    }

    /// Draw a stream of colours into a panel-absolute area, row by row.
    /// The area is clipped to the framebuffer; colours for clipped-away
    /// cells are skipped, and where there are fewer colours than cells,
    /// the remaining cells keep their pixel.
    pub fn fill_contiguous(&mut self, area: &Rect, colors: &[Rgb565])
        requires
            area.fits(),
        ensures
            final(self).top() == old(self).top(),
            final(self).rows() == old(self).rows(),
            forall|u: int, v: int| #[trigger]
                final(self).at(u, v) == painted(
                    old(self).at(u, v),
                    area.has(u, v) && Self::source(u, v, area.x as int, area.y as int, area.w as int) < colors@.len(),
                    colors@[Self::source(u, v, area.x as int, area.y as int, area.w as int)]@.packed(),
                ),
    {
        let (x, y): (i64, i64) = (area.x as i64, area.y as i64);
        let (cx0, cx1, cy0, cy1) = match self.clip_rect(x, y, area.w as i64, area.h as i64) {
            Some(c) => c,
            None => return,
        };
        let w: u64 = area.w as u64;
        let mut py: u32 = cy0;
        while py < cy1
            invariant
                area.fits(),
                x == area.x,
                y == area.y,
                w == area.w,
                cx0 < cx1 <= 410,
                x <= cx0,
                cx1 <= x + w,
                y <= cy0 <= py <= cy1 <= y + area.h,
                cy1 <= 0x1_0000 + 502,
                old(self).top() <= cy0,
                cy1 <= old(self).top() + old(self).rows(),
                self.top() == old(self).top(),
                self.rows() == old(self).rows(),
                forall|u: int, v: int| #[trigger]
                    self.at(u, v) == painted(
                        old(self).at(u, v),
                        cx0 <= u < cx1 && cy0 <= v < py && Self::source(u, v, x as int, y as int, w as int)
                            < colors@.len(),
                        colors@[Self::source(u, v, x as int, y as int, w as int)]@.packed(),
                    ),
            decreases cy1 - py,
        {
            let mut px: u32 = cx0;
            while px < cx1
                invariant
                    area.fits(),
                    x == area.x,
                    y == area.y,
                    w == area.w,
                    cx0 <= px <= cx1 <= 410,
                    x <= cx0,
                    cx1 <= x + w,
                    y <= cy0 <= py < cy1 <= y + area.h,
                    cy1 <= 0x1_0000 + 502,
                    old(self).top() <= cy0,
                    cy1 <= old(self).top() + old(self).rows(),
                    self.top() == old(self).top(),
                    self.rows() == old(self).rows(),
                    forall|u: int, v: int| #[trigger]
                        self.at(u, v) == painted(
                            old(self).at(u, v),
                            ((cx0 <= u < cx1 && cy0 <= v < py) || (v == py && cx0 <= u < px)) && Self::source(
                                u,
                                v,
                                x as int,
                                y as int,
                                w as int,
                            ) < colors@.len(),
                            colors@[Self::source(u, v, x as int, y as int, w as int)]@.packed(),
                        ),
                decreases cx1 - px,
            {
                let ghost before = *self;
                let line: u64 = (py as i64 - y) as u64;
                assert(0 <= line * w <= 0x8000_0000 * 0x8000_0000) by (nonlinear_arith)
                    requires
                        0 <= line <= 0x8000_0000,
                        0 <= w <= 0x8000_0000,
                ;
                let src: u64 = line * w + (px as i64 - x) as u64;
                assert(src == Self::source(px as int, py as int, x as int, y as int, w as int));
                if src < colors.len() as u64 {
                    self.put(px, py, pack565(colors[src as usize]));
                }
                proof {
                    assert forall|u: int, v: int| #[trigger] self.at(u, v) == painted(
                        old(self).at(u, v),
                        ((cx0 <= u < cx1 && cy0 <= v < py) || (v == py && cx0 <= u < px + 1)) && Self::source(
                            u,
                            v,
                            x as int,
                            y as int,
                            w as int,
                        ) < colors@.len(),
                        colors@[Self::source(u, v, x as int, y as int, w as int)]@.packed(),
                    ) by {
                        assert(before.at(u, v) == before.at(u, v));
                    }
                }
                px = px + 1;
            }
            py = py + 1;
        }
    }

    /// Fill the whole framebuffer with one colour.
    pub fn clear(&mut self, color: Rgb565)
        ensures
            final(self).top() == old(self).top(),
            final(self).rows() == old(self).rows(),
            forall|u: int, v: int| #[trigger]
                final(self).at(u, v) == painted(old(self).at(u, v), true, color@.packed()),
    {
        proof {
            use_type_invariant(&*self);
        }
        if self.fb_rows > 0 {
            let y0: u32 = self.tile_y as u32;
            self.fill_held(0, 410, y0, y0 + self.fb_rows as u32, pack565(color));
        }
    }

    /// The conceptual canvas is the full panel, `(width, height)`; the
    /// driver translates by `tile_y` and clips per pixel.
    pub fn size(&self) -> (r: (u32, u32))
        ensures
            r == (410u32, 502u32),
    {
        (WIDTH as u32, HEIGHT as u32)
    }
}

impl<'fb> BlendTarget for CO5300<'fb> {
    open spec fn pixel(&self, u: int, v: int) -> Option<u16> {
        self.at(u, v)
    }

    open spec fn valid(&self) -> bool {
        true
    }

    open spec fn bounds(&self) -> Rect {
        Rect { x: 0, y: 0, w: 410, h: 502 }
    }

    fn bounding_box(&self) -> (r: Rect) {
        Rect { x: 0, y: 0, w: 410, h: 502 }
    }

    fn draw_iter(&mut self, dots: &[Dot])
        ensures
            final(self).top() == old(self).top(),
            final(self).rows() == old(self).rows(),
    {
        let mut i: usize = 0;
        while i < dots.len()
            invariant
                i <= dots@.len(),
                self.top() == old(self).top(),
                self.rows() == old(self).rows(),
                forall|u: int, v: int| #[trigger]
                    self.at(u, v) == dotted(old(self).at(u, v), u, v, dots@.take(i as int)),
            decreases dots@.len() - i,
        {
            proof {
                use_type_invariant(&*self);
            }
            let ghost before = *self;
            let d: Dot = dots[i];
            let y: i64 = d.y as i64 - self.tile_y as i64;
            // Compared in a wide signed type, so values outside the
            // framebuffer cannot wrap into a valid coordinate.
            if d.x >= 0 && d.x < 410 && y >= 0 && y < self.fb_rows as i64 {
                self.put(d.x as u32, d.y as u32, pack565(d.color));
            }
            proof {
                let done = dots@.take(i + 1);
                assert(done.drop_last() =~= dots@.take(i as int));
                assert forall|u: int, v: int| #[trigger] self.at(u, v) == dotted(old(self).at(u, v), u, v, done) by {
                    assert(before.at(u, v) == before.at(u, v));
                }
            }
            i = i + 1;
        }
        assert(dots@.take(i as int) =~= dots@);
    }

    fn fill_area(&mut self, area: &Rect, color: Rgb565)
        ensures
            final(self).top() == old(self).top(),
            final(self).rows() == old(self).rows(),
    {
        match self.clip_rect(area.x as i64, area.y as i64, area.w as i64, area.h as i64) {
            Some((cx0, cx1, cy0, cy1)) => self.fill_held(cx0, cx1, cy0, cy1, pack565(color)),
            None => {},
        }
    }

    fn blend_pixel(&mut self, x: i32, y: i32, color: Rgb565, alpha: u8)
        ensures
            final(self).top() == old(self).top(),
            final(self).rows() == old(self).rows(),
    {
        proof {
            use_type_invariant(&*self);
        }
        let local: i64 = y as i64 - self.tile_y as i64;
        if x < 0 || x >= 410 || local < 0 || local >= self.fb_rows as i64 {
            return ;
        }
        let src: u16 = pack565(color);
        let dst: u16 = self.get(x as u32, y as u32);
        if alpha == 0 {
            proof {
                blend_endpoints(dst, src);
                assert(self.at(x as int, y as int) == Some(dst));
            }
            return ;
        }
        let px: u16 = blend565(dst, src, alpha);
        self.put(x as u32, y as u32, px);
    }

    fn fill_vgradient(&mut self, x: i32, y: i32, w: i32, h: i32, top: Rgb565, bottom: Rgb565)
        ensures
            final(self).top() == old(self).top(),
            final(self).rows() == old(self).rows(),
    {
        let (cx0, cx1, cy0, cy1) = match self.clip_rect(x as i64, y as i64, w as i64, h as i64) {
            Some(c) => c,
            None => return,
        };
        let mut py: u32 = cy0;
        while py < cy1
            invariant
                cx0 < cx1 <= 410,
                x <= cx0,
                cx1 <= x + w,
                y <= cy0 <= py <= cy1 <= y + h,
                cy1 <= 0x1_0000 + 502,
                old(self).top() <= cy0,
                cy1 <= old(self).top() + old(self).rows(),
                self.top() == old(self).top(),
                self.rows() == old(self).rows(),
                forall|u: int, v: int| #[trigger]
                    self.at(u, v) == painted(
                        old(self).at(u, v),
                        cx0 <= u < cx1 && cy0 <= v < py,
                        gradient(u, v, y as int, h as int, top@, bottom@),
                    ),
            decreases cy1 - py,
        {
            let mut px: u32 = cx0;
            while px < cx1
                invariant
                    cx0 <= px <= cx1 <= 410,
                    x <= cx0,
                    cx1 <= x + w,
                    y <= cy0 <= py < cy1 <= y + h,
                    cy1 <= 0x1_0000 + 502,
                    old(self).top() <= cy0,
                    cy1 <= old(self).top() + old(self).rows(),
                    self.top() == old(self).top(),
                    self.rows() == old(self).rows(),
                    forall|u: int, v: int| #[trigger]
                        self.at(u, v) == painted(
                            old(self).at(u, v),
                            (cx0 <= u < cx1 && cy0 <= v < py) || (v == py && cx0 <= u < px),
                            gradient(u, v, y as int, h as int, top@, bottom@),
                        ),
                decreases cx1 - px,
            {
                let ghost before = *self;
                let c: u16 = gradient_at(px as i32, py as i32, y, h, top, bottom);
                self.put(px, py, c);
                proof {
                    assert forall|u: int, v: int| #[trigger] self.at(u, v) == painted(
                        old(self).at(u, v),
                        (cx0 <= u < cx1 && cy0 <= v < py) || (v == py && cx0 <= u < px + 1),
                        gradient(u, v, y as int, h as int, top@, bottom@),
                    ) by {
                        assert(before.at(u, v) == before.at(u, v));
                    }
                }
                px = px + 1;
            }
            py = py + 1;
        }
    }

    fn fill_blend(&mut self, x: i32, y: i32, w: i32, h: i32, color: Rgb565, alpha: u8)
        ensures
            final(self).top() == old(self).top(),
            final(self).rows() == old(self).rows(),
    {
        let src: u16 = pack565(color);
        if alpha == 0 {
            proof {
                assert forall|u: int, v: int, hit: bool| #[trigger]
                    blended(old(self).at(u, v), hit, src, 0) == old(self).at(u, v) by {
                    blended_at_the_ends(old(self).at(u, v), hit, src);
                }
            }
            return ;
        }
        let (cx0, cx1, cy0, cy1) = match self.clip_rect(x as i64, y as i64, w as i64, h as i64) {
            Some(c) => c,
            None => return,
        };
        if alpha == 255 {
            // Opaque degenerates to the plain fill.
            self.fill_held(cx0, cx1, cy0, cy1, src);
            proof {
                assert forall|u: int, v: int, hit: bool| #[trigger]
                    blended(old(self).at(u, v), hit, src, 255) == painted(old(self).at(u, v), hit, src) by {
                    blended_at_the_ends(old(self).at(u, v), hit, src);
                }
            }
            return ;
        }
        let mut py: u32 = cy0;
        while py < cy1
            invariant
                src == color@.packed(),
                cx0 < cx1 <= 410,
                cy0 <= py <= cy1 <= 0x1_0000 + 502,
                old(self).top() <= cy0,
                cy1 <= old(self).top() + old(self).rows(),
                self.top() == old(self).top(),
                self.rows() == old(self).rows(),
                forall|u: int, v: int| #[trigger]
                    self.at(u, v) == blended(old(self).at(u, v), cx0 <= u < cx1 && cy0 <= v < py, src, alpha),
            decreases cy1 - py,
        {
            let mut px: u32 = cx0;
            while px < cx1
                invariant
                    src == color@.packed(),
                    cx0 <= px <= cx1 <= 410,
                    cy0 <= py < cy1 <= 0x1_0000 + 502,
                    old(self).top() <= cy0,
                    cy1 <= old(self).top() + old(self).rows(),
                    self.top() == old(self).top(),
                    self.rows() == old(self).rows(),
                    forall|u: int, v: int| #[trigger]
                        self.at(u, v) == blended(
                            old(self).at(u, v),
                            (cx0 <= u < cx1 && cy0 <= v < py) || (v == py && cx0 <= u < px),
                            src,
                            alpha,
                        ),
                decreases cx1 - px,
            {
                let ghost before = *self;
                let dst: u16 = self.get(px, py);
                let c: u16 = blend565(dst, src, alpha);
                self.put(px, py, c);
                proof {
                    assert(before.at(px as int, py as int) == old(self).at(px as int, py as int));
                    assert forall|u: int, v: int| #[trigger] self.at(u, v) == blended(
                        old(self).at(u, v),
                        (cx0 <= u < cx1 && cy0 <= v < py) || (v == py && cx0 <= u < px + 1),
                        src,
                        alpha,
                    ) by {
                        assert(before.at(u, v) == before.at(u, v));
                    }
                }
                px = px + 1;
            }
            py = py + 1;
        }
    }
}

/// The panel rows that [`CO5300::flush_tile`] pushes with the framebuffer
/// at `top`: the first and the number.
pub open spec fn tile_rows(top: int, rows: int) -> (int, int) {
    (top, if top >= 502 { 0 } else { smaller(502 - top, rows) })
}

/// The panel rows that [`CO5300::flush_rows`] pushes for `y0 .. y1`: the
/// first and the number.
pub open spec fn band_rows(y0: int, y1: int, rows: int) -> (int, int) {
    let first = y0 - y0 % 2;
    (first, if y1 <= y0 || y0 >= rows { 0 } else { smaller(y1 + y1 % 2, rows) - first })
}

/// Tiles laid every `rows` rows cover every panel row exactly once: row
/// `v` is pushed by the tile that starts at `v / rows * rows`, and by no
/// other that starts at a multiple of `rows`. None reaches past the
/// panel.
pub proof fn tiles_cover_each_row_once(v: int, rows: int, i: int)
    requires
        0 <= v < 502,
        0 < rows <= 502,
        0 <= i,
    ensures
        ({
            let (first, n) = tile_rows(i * rows, rows);
            (first <= v < first + n) == (i == v / rows)
        }),
        tile_rows(i * rows, rows).1 > 0 ==> i * rows + tile_rows(i * rows, rows).1 <= 502,
{
    let q = v / rows;
    vstd::arithmetic::div_mod::lemma_fundamental_div_mod(v, rows);
    vstd::arithmetic::div_mod::lemma_mod_bound(v, rows);
    vstd::arithmetic::mul::lemma_mul_is_commutative(rows, q);
    vstd::arithmetic::mul::lemma_mul_is_distributive_add_other_way(rows, i, 1);
    vstd::arithmetic::mul::lemma_mul_is_distributive_add_other_way(rows, q, 1);
    if i < q {
        vstd::arithmetic::mul::lemma_mul_inequality(i + 1, q, rows);
    } else if i > q {
        vstd::arithmetic::mul::lemma_mul_inequality(q + 1, i, rows);
    }
}

/// A band that is pushed covers what was asked for and lies within the
/// framebuffer.
pub proof fn bands_cover_the_request(y0: int, y1: int, rows: int, v: int)
    requires
        0 <= y0,
        0 <= rows <= 502,
        y0 <= v < y1,
        v < rows,
    ensures
        ({
            let (first, n) = band_rows(y0, y1, rows);
            first <= v < first + n && 0 <= first && first + n <= rows
        }),
{
}

/// With an even number of framebuffer rows every window that is pushed
/// starts on an even row and has an even height, as the panel requires.
pub proof fn windows_are_row_aligned(top: int, y0: int, y1: int, rows: int)
    requires
        0 <= top,
        top % 2 == 0,
        0 <= y0,
        0 <= y1,
        0 <= rows <= 502,
        rows % 2 == 0,
    ensures
        tile_rows(top, rows).0 % 2 == 0,
        tile_rows(top, rows).1 % 2 == 0,
        band_rows(y0, y1, rows).0 % 2 == 0,
        band_rows(y0, y1, rows).1 % 2 == 0,
{
}

} // verus!
