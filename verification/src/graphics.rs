//! The surface layer: a rotation-aware drawing surface over the
//! protocol layer, with an optional shadow buffer.
//!
//! The mode is chosen at construction: a surface built with an empty
//! buffer streams every pixel write over the bus, while one built with
//! a full-panel buffer records writes in the buffer and sends them in
//! whole- or partial-panel flushes. The shadow buffer is always indexed
//! in panel coordinates: `set_pixel` transforms logical coordinates to
//! panel coordinates first, under every rotation, in both modes.

use vstd::prelude::*;

use crate::bus::{append_ops, plan, BusOp, OpV};
use crate::display::{
    clear_ops, draw_area_ops, init_ops, remap_ops, rotated_dimensions, Display,
};
use crate::properties::{swaps_axes, DisplayRotation, DisplaySize};

verus! {

/// A rectangle of panel positions, in pixels.
#[derive(Clone, Copy, Debug, PartialEq, Eq, Structural)]
pub struct Rect {
    /// Leftmost column.
    pub x: u8,
    /// Topmost row.
    pub y: u8,
    /// Number of columns.
    pub width: u8,
    /// Number of rows.
    pub height: u8,
}

/// One step of the hardware reset pulse, performed by the embedding on
/// the reset line and delay source.
#[derive(Clone, Copy, Debug, PartialEq, Eq, Structural)]
pub enum ResetStep {
    /// Drive the reset line high.
    PinHigh,
    /// Drive the reset line low.
    PinLow,
    /// Wait the given number of milliseconds.
    DelayMs(u32),
}

/// A positioned colour, as handed over by a drawing consumer.
#[derive(Clone, Copy, Debug, PartialEq, Eq, Structural)]
pub struct Pixel {
    /// Logical column, possibly outside the surface.
    pub x: i32,
    /// Logical row, possibly outside the surface.
    pub y: i32,
    /// 16-bit colour, sent high byte first.
    pub color: u16,
}

/// The shadow buffer length of a buffered surface: two bytes per panel
/// pixel.
pub open spec fn panel_bytes(size: DisplaySize) -> int {
    2 * size.spec_width() * size.spec_height()
}

/// The panel column a logical coordinate pair addresses.
pub open spec fn device_x(rotation: DisplayRotation, x: int, y: int) -> int {
    if swaps_axes(rotation) {
        y
    } else {
        x
    }
}

/// The panel row a logical coordinate pair addresses.
pub open spec fn device_y(rotation: DisplayRotation, x: int, y: int) -> int {
    if swaps_axes(rotation) {
        x
    } else {
        y
    }
}

/// Byte offset of a panel position in the shadow buffer.
pub open spec fn buffer_index(width: int, dx: int, dy: int) -> int {
    (dy * width + dx) * 2
}

/// High byte of a colour on the wire.
pub open spec fn color_hi(c: u16) -> u8 {
    (c / 256) as u8
}

/// Low byte of a colour on the wire.
pub open spec fn color_lo(c: u16) -> u8 {
    (c % 256) as u8
}

/// The shadow buffer after one pixel write at panel position
/// `(dx, dy)`.
pub open spec fn pixel_written(buf: Seq<u8>, width: int, dx: int, dy: int, c: u16) -> Seq<u8> {
    buf.update(buffer_index(width, dx, dy), color_hi(c)).update(
        buffer_index(width, dx, dy) + 1,
        color_lo(c),
    )
}

/// The writes of one unbuffered pixel: a draw window from the panel
/// position to the panel's far corner, then the two colour bytes.
pub open spec fn set_pixel_ops(
    size: DisplaySize,
    rotation: DisplayRotation,
    x: int,
    y: int,
    c: u16,
) -> Seq<OpV> {
    draw_area_ops(
        (device_x(rotation, x, y) as u8, device_y(rotation, x, y) as u8),
        (size.spec_width(), size.spec_height()),
    ) + seq![OpV::Data(seq![color_hi(c), color_lo(c)])]
}

/// `n` zero bytes.
pub open spec fn zero_bytes(n: int) -> Seq<u8> {
    Seq::new(n as nat, |i: int| 0u8)
}

/// The whole-buffer flush: a full-panel draw window, then the buffer as
/// one contiguous data write.
pub open spec fn flush_ops(size: DisplaySize, buf: Seq<u8>) -> Seq<OpV> {
    draw_area_ops((0, 0), (size.spec_width(), size.spec_height())) + seq![OpV::Data(buf)]
}

/// The fixed reset pulse: high, a short settle, low for the reset
/// proper, then high again.
pub open spec fn reset_steps() -> Seq<ResetStep> {
    seq![
        ResetStep::PinHigh,
        ResetStep::DelayMs(1),
        ResetStep::PinLow,
        ResetStep::DelayMs(10),
        ResetStep::PinHigh,
    ]
}

/// A linear index over a `w`-wide grid stays below `w * h`.
pub proof fn lemma_grid_index_bound(w: int, h: int, dx: int, dy: int)
    requires
        0 <= dx < w,
        0 <= dy < h,
    ensures
        0 <= dy * w + dx,
        dy * w + dx < w * h,
{
    assert(0 <= dy * w + dx && dy * w + dx < w * h) by (nonlinear_arith)
        requires
            0 <= dx < w,
            0 <= dy < h,
    ;
}

/// The bytes of one buffer row span: `width` pixels starting at panel
/// position `(x, row)`.
pub open spec fn row_data(buf: Seq<u8>, panel_width: int, x: int, row: int, width: int) -> Seq<u8> {
    buf.subrange((row * panel_width + x) * 2, (row * panel_width + x) * 2 + 2 * width)
}

/// The row-by-row partial flush of the first `rows` rows of a
/// rectangle: per row, a draw window spanning exactly that row's
/// columns, then that row's bytes from the shadow buffer.
pub open spec fn flush_area_ops(buf: Seq<u8>, panel_width: int, area: Rect, rows: int) -> Seq<OpV>
    decreases rows,
{
    if rows <= 0 {
        Seq::empty()
    } else {
        flush_area_ops(buf, panel_width, area, rows - 1) + draw_area_ops(
            (area.x, (area.y + rows - 1) as u8),
            ((area.x + area.width) as u8, (area.y + rows) as u8),
        ) + seq![
            OpV::Data(row_data(buf, panel_width, area.x as int, area.y + rows - 1, area.width as int)),
        ]
    }
}

/// The big-endian byte stream of a sequence of 16-bit colours.
pub open spec fn be_bytes(words: Seq<u16>) -> Seq<u8> {
    Seq::new(
        2 * words.len(),
        |i: int|
            if i % 2 == 0 {
                color_hi(words[i / 2])
            } else {
                color_lo(words[i / 2])
            },
    )
}

/// The 16-bit elements stored in a byte buffer, high byte first.
pub open spec fn buffer_elements(buf: Seq<u8>) -> Seq<u16> {
    Seq::new((buf.len() / 2) as nat, |i: int| (buf[2 * i] * 256 + buf[2 * i + 1]) as u16)
}

/// Whether a drawing consumer's pixel lies inside the logical surface.
pub open spec fn in_bounds(size: DisplaySize, rotation: DisplayRotation, p: Pixel) -> bool {
    &&& 0 <= p.x < rotated_dimensions(size, rotation).0
    &&& 0 <= p.y < rotated_dimensions(size, rotation).1
}

/// The shadow buffer after the first `n` pixels of a consumer's batch:
/// pixels outside the surface are dropped, the rest are written at
/// their panel positions.
pub open spec fn painted(
    buf: Seq<u8>,
    size: DisplaySize,
    rotation: DisplayRotation,
    pixels: Seq<Pixel>,
    n: int,
) -> Seq<u8>
    decreases n,
{
    if n <= 0 {
        buf
    } else {
        let prev = painted(buf, size, rotation, pixels, n - 1);
        let p = pixels[n - 1];
        if in_bounds(size, rotation, p) {
            pixel_written(
                prev,
                size.spec_width() as int,
                device_x(rotation, p.x as int, p.y as int),
                device_y(rotation, p.x as int, p.y as int),
                p.color,
            )
        } else {
            prev
        }
    }
}

/// The planned writes of the first `n` pixels of a consumer's batch on
/// an unbuffered surface: pixels outside the surface are dropped, the
/// rest each become a draw window and two colour bytes.
pub open spec fn pixels_ops(
    size: DisplaySize,
    rotation: DisplayRotation,
    pixels: Seq<Pixel>,
    n: int,
) -> Seq<OpV>
    decreases n,
{
    if n <= 0 {
        Seq::empty()
    } else {
        pixels_ops(size, rotation, pixels, n - 1) + (
        if in_bounds(size, rotation, pixels[n - 1]) {
            set_pixel_ops(
                size,
                rotation,
                pixels[n - 1].x as int,
                pixels[n - 1].y as int,
                pixels[n - 1].color,
            )
        } else {
            Seq::empty()
        })
    }
}

/// The requested fill rectangle clipped to the logical surface, as
/// `(left, top, right, bottom)` with exclusive right and bottom; an
/// empty intersection is the zero rectangle.
pub open spec fn clip_rect(
    size: DisplaySize,
    rotation: DisplayRotation,
    x: int,
    y: int,
    w: int,
    h: int,
) -> (int, int, int, int) {
    let lw = rotated_dimensions(size, rotation).0 as int;
    let lh = rotated_dimensions(size, rotation).1 as int;
    let x0 = if x > 0 { x } else { 0 };
    let y0 = if y > 0 { y } else { 0 };
    let x1 = if x + w < lw { x + w } else { lw };
    let y1 = if y + h < lh { y + h } else { lh };
    if x0 < x1 && y0 < y1 {
        (x0, y0, x1, y1)
    } else {
        (0, 0, 0, 0)
    }
}

/// Whether a position lies inside a clipped rectangle.
pub open spec fn in_clip(clip: (int, int, int, int), px: int, py: int) -> bool {
    &&& clip.0 <= px < clip.2
    &&& clip.1 <= py < clip.3
}

/// The draw window of a bulk fill: the clipped rectangle, with the
/// axes swapped for the quarter turns exactly as single-pixel writes
/// swap them.
pub open spec fn fill_window_ops(rotation: DisplayRotation, clip: (int, int, int, int)) -> Seq<
    OpV,
> {
    if swaps_axes(rotation) {
        draw_area_ops((clip.1 as u8, clip.0 as u8), (clip.3 as u8, clip.2 as u8))
    } else {
        draw_area_ops((clip.0 as u8, clip.1 as u8), (clip.2 as u8, clip.3 as u8))
    }
}

/// The data writes of the first `n` colours of a bulk fill: colours
/// pair with positions of the requested rectangle in row-major order,
/// and a colour is sent exactly when its position lies in the clipped
/// rectangle.
pub open spec fn fill_data_ops(
    x: int,
    y: int,
    w: int,
    clip: (int, int, int, int),
    colors: Seq<u16>,
    n: int,
) -> Seq<OpV>
    decreases n,
{
    if n <= 0 {
        Seq::empty()
    } else {
        fill_data_ops(x, y, w, clip, colors, n - 1) + (
        if in_clip(clip, x + (n - 1) % w, y + (n - 1) / w) {
            seq![OpV::Data(seq![color_hi(colors[n - 1]), color_lo(colors[n - 1])])]
        } else {
            Seq::empty()
        })
    }
}

/// The smaller of two integers.
pub open spec fn spec_min(a: int, b: int) -> int {
    if a < b {
        a
    } else {
        b
    }
}

/// The whole planned traffic of a bulk fill: the clipped draw window,
/// then the colours that fall inside it, in rectangle-traversal order.
/// Colours pair with positions even when the position is clipped away,
/// as a drawing consumer's colour stream is consumed positionally.
pub open spec fn fill_ops(
    size: DisplaySize,
    rotation: DisplayRotation,
    x: int,
    y: int,
    w: int,
    h: int,
    colors: Seq<u16>,
) -> Seq<OpV> {
    let clip = clip_rect(size, rotation, x, y, w, h);
    fill_window_ops(rotation, clip) + fill_data_ops(
        x,
        y,
        w,
        clip,
        colors,
        spec_min(colors.len() as int, w * h),
    )
}

/// Copy the bytes of `v` between `start` and `end`.
fn copy_range(v: &Vec<u8>, start: usize, end: usize) -> (r: Vec<u8>)
    requires
        start <= end,
        end <= v@.len(),
    ensures
        r@ == v@.subrange(start as int, end as int),
{
    let mut r: Vec<u8> = Vec::new();
    let mut i: usize = start;
    while i < end
        invariant
            start <= i <= end,
            end <= v@.len(),
            r@ == v@.subrange(start as int, i as int),
        decreases end - i,
    {
        r.push(v[i]);
        proof {
            assert(r@ =~= v@.subrange(start as int, i + 1));
        }
        i = i + 1;
    }
    r
}

/// The drawing surface: the protocol-layer display plus the optional
/// shadow buffer.
pub struct GraphicsMode<DI> {
    /// The protocol layer this surface drives.
    pub display: Display<DI>,
    /// The shadow buffer: empty for an unbuffered surface, exactly two
    /// bytes per panel pixel for a buffered one.
    pub buffer: Vec<u8>,
}

impl<DI> GraphicsMode<DI> {
    /// Whether this surface records writes in a shadow buffer.
    pub open spec fn buffered(self) -> bool {
        self.buffer@.len() > 0
    }

    /// The mode invariant: the buffer is absent, or sized to the whole
    /// unrotated panel.
    pub open spec fn wf(self) -> bool {
        self.buffer@.len() == 0 || self.buffer@.len() == panel_bytes(self.display.size)
    }

    /// Wrap a display. An empty buffer makes an unbuffered surface; a
    /// full-panel buffer makes a buffered one.
    pub fn new(display: Display<DI>, buffer: Vec<u8>) -> (r: GraphicsMode<DI>)
        requires
            buffer@.len() == 0 || buffer@.len() == panel_bytes(display.size),
        ensures
            r.display == display,
            r.buffer@ == buffer@,
            r.wf(),
    {
        GraphicsMode { display, buffer }
    }

    /// Release the surface, handing back the display and the buffer.
    pub fn release(self) -> (r: (Display<DI>, Vec<u8>))
        ensures
            r.0 == self.display,
            r.1@ == self.buffer@,
    {
        (self.display, self.buffer)
    }

    /// Read access to the shadow buffer.
    pub fn fb(&self) -> (r: &Vec<u8>)
        ensures
            r@ == self.buffer@,
    {
        &self.buffer
    }

    /// Write access to the shadow buffer. Callers that change its
    /// length leave the buffered mode's invariant to re-establish.
    pub fn fb_mut(&mut self) -> (r: &mut Vec<u8>)
        ensures
            *r == old(self).buffer,
            final(self).buffer == *final(r),
            final(self).display == old(self).display,
    {
        &mut self.buffer
    }

    /// The pulse sequence of a hardware reset, to be performed on the
    /// reset line before `init` where one is wired.
    pub fn reset(&self) -> (steps: Vec<ResetStep>)
        ensures
            steps@ == reset_steps(),
    {
        let mut steps: Vec<ResetStep> = Vec::new();
        steps.push(ResetStep::PinHigh);
        steps.push(ResetStep::DelayMs(1));
        steps.push(ResetStep::PinLow);
        steps.push(ResetStep::DelayMs(10));
        steps.push(ResetStep::PinHigh);
        proof {
            assert(steps@ =~= reset_steps());
        }
        steps
    }

    /// The logical dimensions under the current rotation, as the
    /// drawing-consumer protocol's notion of the surface's full
    /// extent: the panel size, swapped for the quarter turns.
    pub fn size(&self) -> (r: (u32, u32))
        ensures
            r.0 == rotated_dimensions(self.display.size, self.display.rotation).0,
            r.1 == rotated_dimensions(self.display.size, self.display.rotation).1,
    {
        let (w, h) = self.display.get_dimensions();
        (w as u32, h as u32)
    }

    /// The logical dimensions under the current rotation.
    pub fn get_dimensions(&self) -> (r: (u8, u8))
        ensures
            r == rotated_dimensions(self.display.size, self.display.rotation),
    {
        self.display.get_dimensions()
    }

    /// Plan the whole bring-up sequence for the stored size and
    /// rotation.
    pub fn init(&self) -> (ops: Vec<BusOp>)
        ensures
            plan(ops@) == init_ops(self.display.size, self.display.rotation),
    {
        self.display.init()
    }

    /// Store a new rotation and plan its single remap command.
    pub fn set_rotation(&mut self, rotation: DisplayRotation) -> (ops: Vec<BusOp>)
        ensures
            final(self).display.iface == old(self).display.iface,
            final(self).display.size == old(self).display.size,
            final(self).display.rotation == rotation,
            final(self).buffer@ == old(self).buffer@,
            plan(ops@) == remap_ops(rotation),
    {
        self.display.set_rotation(rotation)
    }

    /// Write one pixel. The logical coordinates are transformed to
    /// panel coordinates under the current rotation; a buffered surface
    /// records the colour in the shadow buffer and plans no writes,
    /// while an unbuffered one plans a draw window and the two colour
    /// bytes.
    pub fn set_pixel(&mut self, x: u32, y: u32, color: u16) -> (ops: Vec<BusOp>)
        requires
            old(self).wf(),
            x < rotated_dimensions(old(self).display.size, old(self).display.rotation).0,
            y < rotated_dimensions(old(self).display.size, old(self).display.rotation).1,
        ensures
            final(self).wf(),
            final(self).display == old(self).display,
            old(self).buffered() ==> {
                &&& final(self).buffer@ == pixel_written(
                    old(self).buffer@,
                    old(self).display.size.spec_width() as int,
                    device_x(old(self).display.rotation, x as int, y as int),
                    device_y(old(self).display.rotation, x as int, y as int),
                    color,
                )
                &&& ops@.len() == 0
            },
            !old(self).buffered() ==> {
                &&& final(self).buffer@.len() == 0
                &&& plan(ops@) == set_pixel_ops(
                    old(self).display.size,
                    old(self).display.rotation,
                    x as int,
                    y as int,
                    color,
                )
            },
    {
        let (w, h) = self.display.get_size().dimensions();
        let rot = self.display.get_rotation();
        let (nx, ny) = match rot {
            DisplayRotation::Rotate0 | DisplayRotation::Rotate180 => (x, y),
            DisplayRotation::Rotate90 | DisplayRotation::Rotate270 => (y, x),
        };
        let hi = (color / 256) as u8;
        let lo = (color % 256) as u8;
        if self.buffer.len() > 0 {
            proof {
                lemma_grid_index_bound(w as int, h as int, nx as int, ny as int);
            }
            let idx: usize = (ny as usize * w as usize + nx as usize) * 2;
            self.buffer[idx] = hi;
            self.buffer[idx + 1] = lo;
            Vec::new()
        } else {
            let mut ops = self.display.set_draw_area((nx as u8, ny as u8), (w, h));
            let mut px: Vec<u8> = Vec::new();
            px.push(hi);
            px.push(lo);
            ops.push(BusOp::Data(px));
            proof {
                assert(plan(ops@) =~~= set_pixel_ops(
                    self.display.size,
                    self.display.rotation,
                    x as int,
                    y as int,
                    color,
                ));
            }
            ops
        }
    }

    /// Clear the surface. A buffered surface zero-fills its shadow
    /// buffer and, when `flush` is set, plans a whole-buffer flush; an
    /// unbuffered surface plans the streaming full-panel clear, and
    /// `flush` has no effect since there is nothing deferred.
    pub fn clear(&mut self, flush: bool) -> (ops: Vec<BusOp>)
        requires
            old(self).wf(),
        ensures
            final(self).wf(),
            final(self).display == old(self).display,
            old(self).buffered() ==> final(self).buffer@ == zero_bytes(
                old(self).buffer@.len() as int,
            ),
            old(self).buffered() && flush ==> plan(ops@) == flush_ops(
                old(self).display.size,
                zero_bytes(old(self).buffer@.len() as int),
            ),
            old(self).buffered() && !flush ==> ops@.len() == 0,
            !old(self).buffered() ==> {
                &&& final(self).buffer@.len() == 0
                &&& plan(ops@) == clear_ops(old(self).display.size)
            },
    {
        if self.buffer.len() > 0 {
            let n = self.buffer.len();
            let mut i: usize = 0;
            while i < n
                invariant
                    i <= n,
                    self.buffer@.len() == n,
                    self.display == old(self).display,
                    forall|j: int| 0 <= j < i ==> self.buffer@[j] == 0u8,
                decreases n - i,
            {
                self.buffer[i] = 0u8;
                i = i + 1;
            }
            proof {
                assert(self.buffer@ =~= zero_bytes(n as int));
            }
            if flush {
                self.flush()
            } else {
                Vec::new()
            }
        } else {
            self.display.clear()
        }
    }

    /// Plan the whole-buffer flush: a full-panel draw window, then the
    /// shadow buffer as one contiguous write.
    pub fn flush(&self) -> (ops: Vec<BusOp>)
        requires
            self.wf(),
            self.buffered(),
        ensures
            plan(ops@) == flush_ops(self.display.size, self.buffer@),
    {
        let (w, h) = self.display.get_size().dimensions();
        let mut ops = self.display.set_draw_area((0, 0), (w, h));
        ops.push(BusOp::Data(self.buffer.clone()));
        proof {
            assert(plan(ops@) =~~= flush_ops(self.display.size, self.buffer@));
        }
        ops
    }

    /// Plan a row-by-row partial flush of `area`: one draw-window/data
    /// pair per row, each spanning exactly the row's columns, with the
    /// bytes taken from the shadow buffer. The buffer must already hold
    /// the wanted pixel state for the rectangle.
    pub fn flush_area(&self, area: Rect) -> (ops: Vec<BusOp>)
        requires
            self.wf(),
            self.buffered(),
            area.x + area.width <= self.display.size.spec_width(),
            area.y + area.height <= self.display.size.spec_height(),
        ensures
            plan(ops@) == flush_area_ops(
                self.buffer@,
                self.display.size.spec_width() as int,
                area,
                area.height as int,
            ),
    {
        let (w, h) = self.display.get_size().dimensions();
        let mut ops: Vec<BusOp> = Vec::new();
        let mut row: u8 = 0;
        proof {
            assert(plan(ops@) =~~= flush_area_ops(
                self.buffer@,
                w as int,
                area,
                0,
            ));
        }
        while row < area.height
            invariant
                row <= area.height,
                w == self.display.size.spec_width(),
                h == self.display.size.spec_height(),
                self.wf(),
                self.buffered(),
                area.x + area.width <= w,
                area.y + area.height <= h,
                plan(ops@) == flush_area_ops(self.buffer@, w as int, area, row as int),
            decreases area.height - row,
        {
            let row_index: u8 = area.y + row;
            let da = self.display.set_draw_area(
                (area.x, row_index),
                (area.x + area.width, row_index + 1),
            );
            append_ops(&mut ops, da);
            proof {
                assert((row_index as int * w + area.x) * 2 + 2 * area.width <= 2 * (w as int) * (
                h as int) && 2 * (w as int) * (h as int) <= 130050) by (nonlinear_arith)
                    requires
                        0 <= area.x,
                        0 <= row_index as int,
                        area.x + area.width <= w,
                        row_index as int + 1 <= h,
                        w as int <= 255,
                        h as int <= 255,
                ;
            }
            let start: usize = (row_index as usize * w as usize + area.x as usize) * 2;
            let len: usize = 2 * (area.width as usize);
            let slice = copy_range(&self.buffer, start, start + len);
            ops.push(BusOp::Data(slice));
            proof {
                assert(plan(ops@) =~~= flush_area_ops(
                    self.buffer@,
                    w as int,
                    area,
                    row as int + 1,
                ));
            }
            row = row + 1;
        }
        ops
    }

    /// Plan a flush of a caller-supplied, already-packed chunk of
    /// colours covering `chunk_area`, in row-major order: one draw
    /// window for the whole rectangle, then the chunk as big-endian
    /// bytes. The shadow buffer is not consulted.
    pub fn flush_chunk(&self, chunk: &Vec<u16>, chunk_area: Rect) -> (ops: Vec<BusOp>)
        requires
            1 <= chunk_area.width,
            1 <= chunk_area.height,
            chunk_area.x + chunk_area.width <= self.display.size.spec_width(),
            chunk_area.y + chunk_area.height <= self.display.size.spec_height(),
            chunk@.len() == chunk_area.width * chunk_area.height,
        ensures
            plan(ops@) == draw_area_ops(
                (chunk_area.x, chunk_area.y),
                ((chunk_area.x + chunk_area.width) as u8, (chunk_area.y + chunk_area.height) as u8),
            ) + seq![OpV::Data(be_bytes(chunk@))],
    {
        let mut ops = self.display.set_draw_area(
            (chunk_area.x, chunk_area.y),
            (chunk_area.x + chunk_area.width, chunk_area.y + chunk_area.height),
        );
        let mut bytes: Vec<u8> = Vec::new();
        let mut i: usize = 0;
        while i < chunk.len()
            invariant
                i <= chunk@.len(),
                bytes@.len() == 2 * i,
                forall|j: int| 0 <= j < 2 * i ==> bytes@[j] == be_bytes(chunk@)[j],
            decreases chunk@.len() - i,
        {
            let c = chunk[i];
            bytes.push((c / 256) as u8);
            bytes.push((c % 256) as u8);
            i = i + 1;
        }
        proof {
            assert(bytes@ =~= be_bytes(chunk@));
        }
        ops.push(BusOp::Data(bytes));
        proof {
            assert(plan(ops@) =~~= draw_area_ops(
                (chunk_area.x, chunk_area.y),
                ((chunk_area.x + chunk_area.width) as u8, (chunk_area.y + chunk_area.height) as u8),
            ) + seq![OpV::Data(be_bytes(chunk@))]);
        }
        ops
    }

    /// The shadow buffer decoded as 16-bit elements, high byte first.
    pub fn get_buffer(&self) -> (r: Vec<u16>)
        ensures
            r@ == buffer_elements(self.buffer@),
    {
        let mut r: Vec<u16> = Vec::new();
        let n = self.buffer.len() / 2;
        assert(2 * n <= self.buffer@.len());
        let mut i: usize = 0;
        while i < n
            invariant
                i <= n,
                n == self.buffer@.len() / 2,
                2 * n <= self.buffer@.len(),
                self.buffer@.len() <= usize::MAX,
                r@.len() == i,
                forall|j: int| 0 <= j < i ==> r@[j] == buffer_elements(self.buffer@)[j],
            decreases n - i,
        {
            let hi = self.buffer[2 * i];
            let lo = self.buffer[2 * i + 1];
            r.push((hi as u16) * 256 + (lo as u16));
            i = i + 1;
        }
        proof {
            assert(r@ =~= buffer_elements(self.buffer@));
        }
        r
    }

    /// Store one 16-bit element into the shadow buffer, high byte
    /// first, at the given element index.
    pub fn set_buffer_element(&mut self, index: usize, value: u16)
        requires
            2 * index + 1 < old(self).buffer@.len(),
        ensures
            final(self).display == old(self).display,
            final(self).buffer@ == old(self).buffer@.update(
                2 * index as int,
                color_hi(value),
            ).update(2 * index + 1, color_lo(value)),
    {
        let len = self.buffer.len();
        assert(2 * index + 1 < len);
        self.buffer[2 * index] = (value / 256) as u8;
        self.buffer[2 * index + 1] = (value % 256) as u8;
    }

    /// The element index of a position in a row-major buffer of the
    /// given width.
    pub fn calculate_buffer_index(x: u32, y: u32, buffer_width: u32) -> (r: usize)
        requires
            y * buffer_width + x <= usize::MAX,
        ensures
            r == y * buffer_width + x,
    {
        y as usize * buffer_width as usize + x as usize
    }

    /// Draw a consumer's batch of positioned colours. Each pixel is
    /// clipped against the logical dimensions and the rest are written
    /// one by one: into the shadow buffer when buffered, as planned
    /// writes otherwise.
    pub fn draw_iter(&mut self, pixels: &Vec<Pixel>) -> (ops: Vec<BusOp>)
        requires
            old(self).wf(),
        ensures
            final(self).wf(),
            final(self).display == old(self).display,
            old(self).buffered() ==> {
                &&& final(self).buffer@ == painted(
                    old(self).buffer@,
                    old(self).display.size,
                    old(self).display.rotation,
                    pixels@,
                    pixels@.len() as int,
                )
                &&& ops@.len() == 0
            },
            !old(self).buffered() ==> {
                &&& final(self).buffer@.len() == 0
                &&& plan(ops@) == pixels_ops(
                    old(self).display.size,
                    old(self).display.rotation,
                    pixels@,
                    pixels@.len() as int,
                )
            },
    {
        let dims = self.display.get_dimensions();
        let mut ops: Vec<BusOp> = Vec::new();
        let ghost buf0 = self.buffer@;
        let mut i: usize = 0;
        while i < pixels.len()
            invariant
                i <= pixels@.len(),
                self.wf(),
                self.display == old(self).display,
                buf0 == old(self).buffer@,
                dims == rotated_dimensions(self.display.size, self.display.rotation),
                self.buffered() == old(self).buffered(),
                old(self).buffered() ==> {
                    &&& self.buffer@ == painted(
                        buf0,
                        self.display.size,
                        self.display.rotation,
                        pixels@,
                        i as int,
                    )
                    &&& ops@.len() == 0
                },
                !old(self).buffered() ==> {
                    &&& self.buffer@.len() == 0
                    &&& plan(ops@) == pixels_ops(
                        self.display.size,
                        self.display.rotation,
                        pixels@,
                        i as int,
                    )
                },
            decreases pixels@.len() - i,
        {
            let p = pixels[i];
            if p.x >= 0 && p.x < dims.0 as i32 && p.y >= 0 && p.y < dims.1 as i32 {
                let pops = self.set_pixel(p.x as u32, p.y as u32, p.color);
                append_ops(&mut ops, pops);
            }
            proof {
                if old(self).buffered() {
                    assert(plan(ops@).len() == ops@.len());
                    assert(ops@.len() == 0);
                    assert(self.buffer@ == painted(
                        buf0,
                        self.display.size,
                        self.display.rotation,
                        pixels@,
                        i + 1,
                    ));
                } else {
                    assert(plan(ops@) =~~= pixels_ops(
                        self.display.size,
                        self.display.rotation,
                        pixels@,
                        i + 1,
                    ));
                }
            }
            i = i + 1;
        }
        ops
    }

    /// Fill a rectangle from a colour stream on an unbuffered surface.
    /// The rectangle is clipped to the logical dimensions; one draw
    /// window covers the clipped rectangle, then the colours whose
    /// row-major position survives the clipping are streamed in order.
    pub fn fill_contiguous(
        &self,
        x: i32,
        y: i32,
        width: u32,
        height: u32,
        colors: &Vec<u16>,
    ) -> (ops: Vec<BusOp>)
        requires
            !self.buffered(),
        ensures
            plan(ops@) == fill_ops(
                self.display.size,
                self.display.rotation,
                x as int,
                y as int,
                width as int,
                height as int,
                colors@,
            ),
    {
        let dims = self.display.get_dimensions();
        let lw: i64 = dims.0 as i64;
        let lh: i64 = dims.1 as i64;
        let xi: i64 = x as i64;
        let yi: i64 = y as i64;
        let wi: i64 = width as i64;
        let hgt: i64 = height as i64;
        let mut x0: i64 = if xi > 0 { xi } else { 0 };
        let mut y0: i64 = if yi > 0 { yi } else { 0 };
        let mut x1: i64 = if xi + wi < lw { xi + wi } else { lw };
        let mut y1: i64 = if yi + hgt < lh { yi + hgt } else { lh };
        if !(x0 < x1 && y0 < y1) {
            x0 = 0;
            y0 = 0;
            x1 = 0;
            y1 = 0;
        }
        let ghost clip = clip_rect(
            self.display.size,
            self.display.rotation,
            x as int,
            y as int,
            width as int,
            height as int,
        );
        proof {
            assert(clip == (x0 as int, y0 as int, x1 as int, y1 as int));
        }
        let rot = self.display.get_rotation();
        let ops_window = match rot {
            DisplayRotation::Rotate0 | DisplayRotation::Rotate180 => self.display.set_draw_area(
                (x0 as u8, y0 as u8),
                (x1 as u8, y1 as u8),
            ),
            DisplayRotation::Rotate90 | DisplayRotation::Rotate270 => self.display.set_draw_area(
                (y0 as u8, x0 as u8),
                (y1 as u8, x1 as u8),
            ),
        };
        let mut ops = ops_window;
        proof {
            assert((width as u64) * (height as u64) <= 0xFFFF_FFFF * 0xFFFF_FFFFu64)
                by (nonlinear_arith)
                requires
                    width as u64 <= 0xFFFF_FFFFu64,
                    height as u64 <= 0xFFFF_FFFFu64,
            ;
        }
        let total: u64 = (width as u64) * (height as u64);
        let clen: u64 = colors.len() as u64;
        let bound: u64 = if total < clen {
            total
        } else {
            clen
        };
        let mut j: u64 = 0;
        while j < bound
            invariant
                j <= bound,
                total == width as int * height as int,
                bound == spec_min(colors@.len() as int, width as int * height as int),
                bound <= colors@.len(),
                colors@.len() <= usize::MAX,
                clip == clip_rect(
                    self.display.size,
                    self.display.rotation,
                    x as int,
                    y as int,
                    width as int,
                    height as int,
                ),
                x0 as int == clip.0 && y0 as int == clip.1 && x1 as int == clip.2 && y1 as int
                    == clip.3,
                xi == x as int && yi == y as int,
                plan(ops@) == fill_window_ops(self.display.rotation, clip) + fill_data_ops(
                    x as int,
                    y as int,
                    width as int,
                    clip,
                    colors@,
                    j as int,
                ),
            decreases bound - j,
        {
            proof {
                assert(width >= 1) by (nonlinear_arith)
                    requires
                        (j as int) < spec_min(colors@.len() as int, width as int * height as int),
                        0 <= j,
                        total == width as int * height as int,
                ;
                assert((j as int) % (width as int) < width as int && (j as int) / (width as int)
                    < height as int) by (nonlinear_arith)
                    requires
                        0 <= j as int,
                        1 <= width as int,
                        (j as int) < (width as int) * (height as int),
                ;
            }
            let px: i64 = xi + (j % (width as u64)) as i64;
            let py: i64 = yi + (j / (width as u64)) as i64;
            let ghost ops_before = ops@;
            let inside = x0 <= px && px < x1 && y0 <= py && py < y1;
            if inside {
                let c = colors[j as usize];
                let mut colour_bytes: Vec<u8> = Vec::new();
                colour_bytes.push((c / 256) as u8);
                colour_bytes.push((c % 256) as u8);
                ops.push(BusOp::Data(colour_bytes));
            }
            proof {
                let wint = width as int;
                let jx = x as int + (j as int) % wint;
                let jy = y as int + (j as int) / wint;
                assert(px as int == jx && py as int == jy);
                assert(inside == in_clip(clip, jx, jy));
                let step: Seq<OpV> = if in_clip(clip, jx, jy) {
                    seq![
                        OpV::Data(seq![color_hi(colors@[j as int]), color_lo(colors@[j as int])]),
                    ]
                } else {
                    Seq::empty()
                };
                assert(fill_data_ops(x as int, y as int, wint, clip, colors@, j as int + 1)
                    == fill_data_ops(x as int, y as int, wint, clip, colors@, j as int) + step);
                assert(plan(ops@) =~~= plan(ops_before) + step);
                assert(plan(ops@) =~~= fill_window_ops(self.display.rotation, clip)
                    + fill_data_ops(
                    x as int,
                    y as int,
                    width as int,
                    clip,
                    colors@,
                    j as int + 1,
                ));
            }
            j = j + 1;
        }
        proof {
            assert(plan(ops@) =~~= fill_ops(
                self.display.size,
                self.display.rotation,
                x as int,
                y as int,
                width as int,
                height as int,
                colors@,
            ));
        }
        ops
    }

    /// Release the shadow buffer to the caller without deallocating it,
    /// leaving the surface unbuffered.
    pub fn drop_buffer(&mut self) -> (buf: Vec<u8>)
        ensures
            final(self).display == old(self).display,
            final(self).buffer@.len() == 0,
            final(self).wf(),
            buf@ == old(self).buffer@,
    {
        let mut buf: Vec<u8> = Vec::new();
        core::mem::swap(&mut self.buffer, &mut buf);
        buf
    }
}

/// After a buffered clear, a whole-buffer flush streams exactly the
/// all-zero buffer: one draw window and then `2 * width * height` zero
/// bytes.
pub proof fn lemma_clear_then_flush_zero(size: DisplaySize)
    ensures
        flush_ops(size, zero_bytes(panel_bytes(size))).len() == 6,
        flush_ops(size, zero_bytes(panel_bytes(size)))[5] == OpV::Data(
            zero_bytes(panel_bytes(size)),
        ),
        zero_bytes(panel_bytes(size)).len() == 2 * size.spec_width() * size.spec_height(),
        forall|i: int|
            0 <= i < panel_bytes(size) ==> zero_bytes(panel_bytes(size))[i] == 0u8,
{
}

/// A partial flush of a rectangle issues exactly `area.height`
/// draw-window/data pairs — six writes per row — and each row's data
/// write carries exactly `2 * area.width` bytes of the shadow buffer,
/// namely that row's span.
pub proof fn lemma_flush_area_shape(
    buf: Seq<u8>,
    panel_width: int,
    panel_height: int,
    area: Rect,
    rows: int,
)
    requires
        0 <= rows,
        rows <= area.height,
        buf.len() == 2 * panel_width * panel_height,
        area.x + area.width <= panel_width,
        area.y + area.height <= panel_height,
    ensures
        flush_area_ops(buf, panel_width, area, rows).len() == 6 * rows,
        forall|r: int|
            0 <= r < rows ==> #[trigger] flush_area_ops(buf, panel_width, area, rows)[6 * r + 5]
                == OpV::Data(
                row_data(buf, panel_width, area.x as int, area.y + r, area.width as int),
            ),
        forall|r: int|
            0 <= r < rows ==> #[trigger] row_data(
                buf,
                panel_width,
                area.x as int,
                area.y + r,
                area.width as int,
            ).len() == 2 * area.width,
    decreases rows,
{
    if rows > 0 {
        lemma_flush_area_shape(buf, panel_width, panel_height, area, rows - 1);
        assert(0 <= ((area.y + rows - 1) * panel_width + area.x) * 2 && ((area.y + rows - 1)
            * panel_width + area.x) * 2 + 2 * area.width <= 2 * panel_width * panel_height)
            by (nonlinear_arith)
            requires
                0 <= area.x,
                0 <= area.y,
                0 < rows,
                area.x + area.width <= panel_width,
                area.y + rows <= panel_height,
        ;
        let prev = flush_area_ops(buf, panel_width, area, rows - 1);
        let whole = flush_area_ops(buf, panel_width, area, rows);
        assert(whole.len() == 6 * rows);
        assert forall|r: int| 0 <= r < rows implies #[trigger] whole[6 * r + 5] == OpV::Data(
            row_data(buf, panel_width, area.x as int, area.y + r, area.width as int),
        ) by {
            if r < rows - 1 {
                assert(whole[6 * r + 5] == prev[6 * r + 5]);
            }
        };
    }
}

/// Writing a colour to a pixel and reading the same byte pair back
/// from the shadow buffer yields the colour: the pair is the colour's
/// big-endian encoding, so high byte times 256 plus low byte is the
/// colour again.
pub proof fn lemma_pixel_round_trip(buf: Seq<u8>, width: int, dx: int, dy: int, c: u16)
    requires
        0 <= buffer_index(width, dx, dy),
        buffer_index(width, dx, dy) + 1 < buf.len(),
    ensures
        pixel_written(buf, width, dx, dy, c)[buffer_index(width, dx, dy)] == color_hi(c),
        pixel_written(buf, width, dx, dy, c)[buffer_index(width, dx, dy) + 1] == color_lo(c),
        color_hi(c) * 256 + color_lo(c) == c,
{
    vstd::arithmetic::div_mod::lemma_fundamental_div_mod(c as int, 256);
}

} // verus!
