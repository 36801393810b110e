//! The protocol layer: display state, the bring-up sequence, and the
//! draw-window addressing primitive.
//!
//! A [`Display`] owns the bus handle together with the chosen panel size
//! and the current rotation. Every operation returns the exact sequence
//! of bus writes it requires; the embedding transmits them in order and
//! treats any failure as "controller state unknown, re-run `init`".

use vstd::prelude::*;

use crate::bus::{append_ops, plan, BusOp, OpV};
use crate::command::{command_ops, Command};
use crate::properties::{swaps_axes, DisplayRotation, DisplaySize};

verus! {

/// The logical (width, height) seen by callers: the panel dimensions,
/// swapped for the quarter turns.
pub open spec fn rotated_dimensions(size: DisplaySize, rotation: DisplayRotation) -> (u8, u8) {
    if swaps_axes(rotation) {
        (size.spec_height(), size.spec_width())
    } else {
        (size.spec_width(), size.spec_height())
    }
}

/// The inclusive end bound sent to the controller: one less than the
/// requested exclusive bound, clamped to zero so a degenerate range
/// never underflows.
pub open spec fn end_bound(e: u8) -> u8 {
    if e == 0 {
        0
    } else {
        (e - 1) as u8
    }
}

/// The writes that establish a draw window: column range, row range,
/// then the begin-RAM-write command.
pub open spec fn draw_area_ops(start: (u8, u8), end: (u8, u8)) -> Seq<OpV> {
    command_ops(Command::Column(start.0, end_bound(end.0)))
        + command_ops(Command::Row(start.1, end_bound(end.1)))
        + command_ops(Command::WriteRam)
}

/// `n` data writes of one black pixel (two zero bytes) each.
pub open spec fn zero_pixel_ops(n: int) -> Seq<OpV>
    decreases n,
{
    if n <= 0 {
        Seq::empty()
    } else {
        zero_pixel_ops(n - 1).push(OpV::Data(seq![0u8, 0u8]))
    }
}

/// The streaming full-panel clear: a full-panel draw window followed by
/// one black pixel per panel position.
pub open spec fn clear_ops(size: DisplaySize) -> Seq<OpV> {
    draw_area_ops((0, 0), (size.spec_width(), size.spec_height()))
        + zero_pixel_ops(size.spec_width() * size.spec_height())
}

/// The fixed table of remap flags for each rotation: column remap,
/// scan-direction remap, colour-order flag.
pub open spec fn remap_flags(rotation: DisplayRotation) -> (bool, bool, bool) {
    match rotation {
        DisplayRotation::Rotate0 => (false, false, true),
        DisplayRotation::Rotate90 => (true, true, true),
        DisplayRotation::Rotate180 => (false, true, false),
        DisplayRotation::Rotate270 => (true, false, false),
    }
}

/// The single remap command that applies a rotation.
pub open spec fn remap_ops(rotation: DisplayRotation) -> Seq<OpV> {
    command_ops(
        Command::SetRemap(
            remap_flags(rotation).0,
            remap_flags(rotation).1,
            remap_flags(rotation).2,
        ),
    )
}

/// The fixed configuration prefix of the bring-up sequence, in its
/// load-bearing order: unlock, output off, clock, multiplex ratio of
/// height minus one, offsets, supply configuration, contrast, charge
/// periods, COM deselect level, inversion off.
pub open spec fn init_command_ops(height: u8) -> Seq<OpV>
    recommends
        height >= 1,
{
    command_ops(Command::CommandLock(0x12)) + command_ops(Command::CommandLock(0xB1))
        + command_ops(Command::DisplayOn(false)) + command_ops(Command::ClockDiv(0xF1))
        + command_ops(Command::MuxRatio((height - 1) as u8))
        + command_ops(Command::DisplayOffset(0)) + command_ops(Command::StartLine(0))
        + command_ops(Command::SetGpio(0x00)) + command_ops(Command::FunctionSelect(0x01))
        + command_ops(Command::SetVsl) + command_ops(Command::Contrast(0x8F))
        + command_ops(Command::ContrastCurrent(0x0F)) + command_ops(Command::PreCharge(0x32))
        + command_ops(Command::PreCharge2(0x01)) + command_ops(Command::Vcomh(0x05))
        + command_ops(Command::Invert(false))
}

/// The whole bring-up sequence: configuration, the stored rotation's
/// remap, a streaming clear, then display output on. The remap comes
/// before the clear so the clear addresses the panel in the caller's
/// chosen orientation.
pub open spec fn init_ops(size: DisplaySize, rotation: DisplayRotation) -> Seq<OpV> {
    init_command_ops(size.spec_height()) + remap_ops(rotation) + clear_ops(size)
        + command_ops(Command::DisplayOn(true))
}

/// Display state: the bus handle, the panel geometry, and the current
/// rotation.
pub struct Display<DI> {
    /// The bus handle. The driver never touches it; the embedding that
    /// transmits planned operations does.
    pub iface: DI,
    /// The fixed panel geometry.
    pub size: DisplaySize,
    /// The current rotation. After the remap operations of `init` or
    /// `set_rotation` are transmitted, the controller's remap register
    /// matches this field.
    pub rotation: DisplayRotation,
}

impl<DI> Display<DI> {
    /// Create a new display over a bus handle.
    pub fn new(iface: DI, size: DisplaySize, rotation: DisplayRotation) -> (r: Display<DI>)
        ensures
            r.size == size,
            r.rotation == rotation,
            r.iface == iface,
    {
        Display { iface, size, rotation }
    }

    /// Release the display, handing the bus handle back to the caller.
    pub fn release(self) -> (r: DI)
        ensures
            r == self.iface,
    {
        self.iface
    }

    /// The configured panel size.
    pub fn get_size(&self) -> (r: DisplaySize)
        ensures
            r == self.size,
    {
        self.size
    }

    /// The current rotation.
    pub fn get_rotation(&self) -> (r: DisplayRotation)
        ensures
            r == self.rotation,
    {
        self.rotation
    }

    /// The logical dimensions under the current rotation.
    pub fn get_dimensions(&self) -> (r: (u8, u8))
        ensures
            r == rotated_dimensions(self.size, self.rotation),
    {
        let (w, h) = self.size.dimensions();
        match self.rotation {
            DisplayRotation::Rotate0 | DisplayRotation::Rotate180 => (w, h),
            DisplayRotation::Rotate90 | DisplayRotation::Rotate270 => (h, w),
        }
    }

    /// Plan the writes that set the draw window to the half-open ranges
    /// `start.0 .. end.0` by `start.1 .. end.1`. Subsequent data writes
    /// auto-increment inside this window; no bounds are checked here.
    pub fn set_draw_area(&self, start: (u8, u8), end: (u8, u8)) -> (ops: Vec<BusOp>)
        ensures
            plan(ops@) == draw_area_ops(start, end),
    {
        let mut ops: Vec<BusOp> = Vec::new();
        let col_end = if end.0 == 0 { 0 } else { end.0 - 1 };
        let row_end = if end.1 == 0 { 0 } else { end.1 - 1 };
        Command::Column(start.0, col_end).encode_into(&mut ops);
        Command::Row(start.1, row_end).encode_into(&mut ops);
        Command::WriteRam.encode_into(&mut ops);
        proof {
            assert(plan(ops@) =~~= draw_area_ops(start, end));
        }
        ops
    }

    /// Plan one raw data write into the current draw window.
    pub fn draw(&self, buffer: &Vec<u8>) -> (ops: Vec<BusOp>)
        ensures
            plan(ops@) == seq![OpV::Data(buffer@)],
    {
        let mut ops: Vec<BusOp> = Vec::new();
        ops.push(BusOp::Data(buffer.clone()));
        proof {
            assert(plan(ops@) =~~= seq![OpV::Data(buffer@)]);
        }
        ops
    }

    /// Plan the streaming clear: set the draw window to the whole panel
    /// and write one black pixel per position.
    pub fn clear(&self) -> (ops: Vec<BusOp>)
        ensures
            plan(ops@) == clear_ops(self.size),
    {
        let (w, h) = self.size.dimensions();
        let mut ops = self.set_draw_area((0, 0), (w, h));
        let total: u32 = (w as u32) * (h as u32);
        let mut i: u32 = 0;
        while i < total
            invariant
                i <= total,
                total == self.size.spec_width() * self.size.spec_height(),
                plan(ops@) == draw_area_ops(
                    (0, 0),
                    (self.size.spec_width(), self.size.spec_height()),
                ) + zero_pixel_ops(i as int),
            decreases total - i,
        {
            let mut px: Vec<u8> = Vec::new();
            px.push(0x00);
            px.push(0x00);
            let ghost before = ops@;
            ops.push(BusOp::Data(px));
            proof {
                assert(zero_pixel_ops(i + 1) == zero_pixel_ops(i as int).push(
                    OpV::Data(seq![0u8, 0u8]),
                ));
                assert(plan(ops@) =~~= plan(before).push(OpV::Data(seq![0u8, 0u8])));
            }
            i = i + 1;
        }
        ops
    }

    /// Store a new rotation and plan the single remap command that
    /// applies it. Dimensions are not recomputed here; callers re-derive
    /// them through `get_dimensions`.
    pub fn set_rotation(&mut self, rotation: DisplayRotation) -> (ops: Vec<BusOp>)
        ensures
            final(self).iface == old(self).iface,
            final(self).size == old(self).size,
            final(self).rotation == rotation,
            plan(ops@) == remap_ops(rotation),
    {
        self.rotation = rotation;
        let mut ops: Vec<BusOp> = Vec::new();
        rotation_remap_command(rotation).encode_into(&mut ops);
        proof {
            assert(plan(ops@) =~~= remap_ops(rotation));
        }
        ops
    }

    /// Plan the whole bring-up sequence for the stored size and
    /// rotation. The state is unchanged: the remap step re-applies the
    /// rotation already stored.
    pub fn init(&self) -> (ops: Vec<BusOp>)
        ensures
            plan(ops@) == init_ops(self.size, self.rotation),
    {
        let (_, h) = self.size.dimensions();
        let mut ops: Vec<BusOp> = Vec::new();
        Command::CommandLock(0x12).encode_into(&mut ops);
        Command::CommandLock(0xB1).encode_into(&mut ops);
        Command::DisplayOn(false).encode_into(&mut ops);
        Command::ClockDiv(0xF1).encode_into(&mut ops);
        Command::MuxRatio(h - 1).encode_into(&mut ops);
        Command::DisplayOffset(0).encode_into(&mut ops);
        Command::StartLine(0).encode_into(&mut ops);
        Command::SetGpio(0x00).encode_into(&mut ops);
        Command::FunctionSelect(0x01).encode_into(&mut ops);
        Command::SetVsl.encode_into(&mut ops);
        Command::Contrast(0x8F).encode_into(&mut ops);
        Command::ContrastCurrent(0x0F).encode_into(&mut ops);
        Command::PreCharge(0x32).encode_into(&mut ops);
        Command::PreCharge2(0x01).encode_into(&mut ops);
        Command::Vcomh(0x05).encode_into(&mut ops);
        Command::Invert(false).encode_into(&mut ops);
        rotation_remap_command(self.rotation).encode_into(&mut ops);
        let clear_part = self.clear();
        append_ops(&mut ops, clear_part);
        Command::DisplayOn(true).encode_into(&mut ops);
        proof {
            assert(plan(ops@) =~~= init_ops(self.size, self.rotation));
        }
        ops
    }
}

/// The remap command for a rotation, following the fixed flag table.
pub fn rotation_remap_command(rotation: DisplayRotation) -> (r: Command)
    ensures
        r == Command::SetRemap(
            remap_flags(rotation).0,
            remap_flags(rotation).1,
            remap_flags(rotation).2,
        ),
{
    match rotation {
        DisplayRotation::Rotate0 => Command::SetRemap(false, false, true),
        DisplayRotation::Rotate90 => Command::SetRemap(true, true, true),
        DisplayRotation::Rotate180 => Command::SetRemap(false, true, false),
        DisplayRotation::Rotate270 => Command::SetRemap(true, false, false),
    }
}

/// For every panel size and rotation the logical dimensions are the
/// panel dimensions, swapped exactly for the quarter turns and
/// unswapped otherwise.
pub proof fn lemma_dimensions_swap(size: DisplaySize, rotation: DisplayRotation)
    ensures
        swaps_axes(rotation) ==> rotated_dimensions(size, rotation) == (
            size.spec_height(),
            size.spec_width(),
        ),
        !swaps_axes(rotation) ==> rotated_dimensions(size, rotation) == (
            size.spec_width(),
            size.spec_height(),
        ),
{
}

/// Every rotation change is exactly one remap command — one opcode
/// write and one parameter write — and its flags follow the fixed
/// table.
pub proof fn lemma_remap_single_command(rotation: DisplayRotation)
    ensures
        remap_ops(rotation).len() == 2,
        remap_ops(rotation)[0] == OpV::Command(seq![0xA0u8]),
        remap_ops(rotation) == command_ops(
            Command::SetRemap(
                remap_flags(rotation).0,
                remap_flags(rotation).1,
                remap_flags(rotation).2,
            ),
        ),
        remap_flags(DisplayRotation::Rotate0) == (false, false, true),
        remap_flags(DisplayRotation::Rotate90) == (true, true, true),
        remap_flags(DisplayRotation::Rotate180) == (false, true, false),
        remap_flags(DisplayRotation::Rotate270) == (true, false, false),
{
}

/// A draw window is five writes, and the end bounds it encodes are the
/// requested ends minus one, clamped to zero when a requested end is
/// zero.
pub proof fn lemma_draw_area_end_clamped(start: (u8, u8), end: (u8, u8))
    ensures
        draw_area_ops(start, end).len() == 5,
        draw_area_ops(start, end)[0] == OpV::Command(seq![0x15u8]),
        draw_area_ops(start, end)[1] == OpV::Data(
            seq![
                start.0,
                if end.0 == 0 {
                    0u8
                } else {
                    (end.0 - 1) as u8
                },
            ],
        ),
        draw_area_ops(start, end)[2] == OpV::Command(seq![0x75u8]),
        draw_area_ops(start, end)[3] == OpV::Data(
            seq![
                start.1,
                if end.1 == 0 {
                    0u8
                } else {
                    (end.1 - 1) as u8
                },
            ],
        ),
        draw_area_ops(start, end)[4] == OpV::Command(seq![0x5Cu8]),
{
}

/// The bring-up sequence sets the multiplex ratio parameter to the
/// panel height minus one.
pub proof fn lemma_init_mux_ratio(size: DisplaySize, rotation: DisplayRotation)
    ensures
        init_ops(size, rotation)[8] == OpV::Data(seq![(size.spec_height() - 1) as u8]),
{
}

} // verus!
