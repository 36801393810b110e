//! The controller's command set and its wire encoding.
//!
//! Each command is a stateless value: one opcode byte plus zero or more
//! parameter bytes. On the bus it becomes two logically distinct writes —
//! the opcode under command selection, then the parameters under data
//! selection — or a single command write when it has no parameters.

use vstd::prelude::*;

use crate::bus::{plan, BusOp, OpV};

verus! {

/// The closed set of controller commands the driver issues.
#[derive(Clone, Copy, Debug, PartialEq, Eq, Structural)]
pub enum Command {
    /// Unlock or lock the command interface.
    CommandLock(u8),
    /// Enable (`true`) or disable (`false`) display output.
    DisplayOn(bool),
    /// Front clock divider and oscillator frequency.
    ClockDiv(u8),
    /// Multiplex ratio; set to panel height minus one.
    MuxRatio(u8),
    /// Vertical display offset (COM shift).
    DisplayOffset(u8),
    /// Display start line.
    StartLine(u8),
    /// GPIO pin configuration.
    SetGpio(u8),
    /// Function selection (internal regulator enable).
    FunctionSelect(u8),
    /// Select the external segment low-voltage source.
    SetVsl,
    /// Contrast level for the colour channels.
    Contrast(u8),
    /// Master contrast current control.
    ContrastCurrent(u8),
    /// Phase 1 and 2 charge periods.
    PreCharge(u8),
    /// Second pre-charge period.
    PreCharge2(u8),
    /// COM deselect voltage level.
    Vcomh(u8),
    /// Enable (`true`) or disable (`false`) colour inversion.
    Invert(bool),
    /// Remap and colour-depth register: column remap, scan-direction
    /// remap, and colour-order flag, in that order.
    SetRemap(bool, bool, bool),
    /// Column address range of the draw window, inclusive bounds.
    Column(u8, u8),
    /// Row address range of the draw window, inclusive bounds.
    Row(u8, u8),
    /// Begin writing RAM inside the current draw window.
    WriteRam,
}

/// The remap register value encoding the three rotation flags.
///
/// The fixed bits select 65k colour depth and the odd/even COM split;
/// `col_remap` mirrors the column order, `scan_remap` mirrors the COM
/// scan direction, and `colour_order` swaps the colour sequence.
pub open spec fn remap_param(col_remap: bool, scan_remap: bool, colour_order: bool) -> u8 {
    (0x60 + (if col_remap {
        0x02u8
    } else {
        0x00u8
    }) + (if scan_remap {
        0x10u8
    } else {
        0x00u8
    }) + (if colour_order {
        0x04u8
    } else {
        0x00u8
    })) as u8
}

/// The opcode byte of a command.
pub open spec fn opcode(c: Command) -> u8 {
    match c {
        Command::CommandLock(_) => 0xFD,
        Command::DisplayOn(on) => if on { 0xAF } else { 0xAE },
        Command::ClockDiv(_) => 0xB3,
        Command::MuxRatio(_) => 0xCA,
        Command::DisplayOffset(_) => 0xA2,
        Command::StartLine(_) => 0xA1,
        Command::SetGpio(_) => 0xB5,
        Command::FunctionSelect(_) => 0xAB,
        Command::SetVsl => 0xB4,
        Command::Contrast(_) => 0xC1,
        Command::ContrastCurrent(_) => 0xC7,
        Command::PreCharge(_) => 0xB1,
        Command::PreCharge2(_) => 0xB6,
        Command::Vcomh(_) => 0xBE,
        Command::Invert(inv) => if inv { 0xA7 } else { 0xA6 },
        Command::SetRemap(_, _, _) => 0xA0,
        Command::Column(_, _) => 0x15,
        Command::Row(_, _) => 0x75,
        Command::WriteRam => 0x5C,
    }
}

/// The parameter bytes of a command, in wire order.
pub open spec fn params(c: Command) -> Seq<u8> {
    match c {
        Command::CommandLock(v) => seq![v],
        Command::DisplayOn(_) => seq![],
        Command::ClockDiv(v) => seq![v],
        Command::MuxRatio(v) => seq![v],
        Command::DisplayOffset(v) => seq![v],
        Command::StartLine(v) => seq![v],
        Command::SetGpio(v) => seq![v],
        Command::FunctionSelect(v) => seq![v],
        Command::SetVsl => seq![0xA0, 0xB5, 0x55],
        Command::Contrast(v) => seq![v],
        Command::ContrastCurrent(v) => seq![v],
        Command::PreCharge(v) => seq![v],
        Command::PreCharge2(v) => seq![v],
        Command::Vcomh(v) => seq![v],
        Command::Invert(_) => seq![],
        Command::SetRemap(a, b, c) => seq![remap_param(a, b, c)],
        Command::Column(start, end) => seq![start, end],
        Command::Row(start, end) => seq![start, end],
        Command::WriteRam => seq![],
    }
}

/// The bus writes that transmit one command: the opcode under command
/// selection, then the parameters under data selection, if any.
pub open spec fn command_ops(c: Command) -> Seq<OpV> {
    if params(c).len() == 0 {
        seq![OpV::Command(seq![opcode(c)])]
    } else {
        seq![OpV::Command(seq![opcode(c)]), OpV::Data(params(c))]
    }
}

impl Command {
    /// The opcode byte of this command.
    pub fn opcode_byte(self) -> (r: u8)
        ensures
            r == opcode(self),
    {
        match self {
            Command::CommandLock(_) => 0xFD,
            Command::DisplayOn(on) => if on { 0xAF } else { 0xAE },
            Command::ClockDiv(_) => 0xB3,
            Command::MuxRatio(_) => 0xCA,
            Command::DisplayOffset(_) => 0xA2,
            Command::StartLine(_) => 0xA1,
            Command::SetGpio(_) => 0xB5,
            Command::FunctionSelect(_) => 0xAB,
            Command::SetVsl => 0xB4,
            Command::Contrast(_) => 0xC1,
            Command::ContrastCurrent(_) => 0xC7,
            Command::PreCharge(_) => 0xB1,
            Command::PreCharge2(_) => 0xB6,
            Command::Vcomh(_) => 0xBE,
            Command::Invert(inv) => if inv { 0xA7 } else { 0xA6 },
            Command::SetRemap(_, _, _) => 0xA0,
            Command::Column(_, _) => 0x15,
            Command::Row(_, _) => 0x75,
            Command::WriteRam => 0x5C,
        }
    }

    /// The parameter bytes of this command, in wire order.
    pub fn param_bytes(self) -> (r: Vec<u8>)
        ensures
            r@ == params(self),
    {
        let mut v: Vec<u8> = Vec::new();
        match self {
            Command::CommandLock(p) => { v.push(p); }
            Command::DisplayOn(_) => {}
            Command::ClockDiv(p) => { v.push(p); }
            Command::MuxRatio(p) => { v.push(p); }
            Command::DisplayOffset(p) => { v.push(p); }
            Command::StartLine(p) => { v.push(p); }
            Command::SetGpio(p) => { v.push(p); }
            Command::FunctionSelect(p) => { v.push(p); }
            Command::SetVsl => {
                v.push(0xA0);
                v.push(0xB5);
                v.push(0x55);
            }
            Command::Contrast(p) => { v.push(p); }
            Command::ContrastCurrent(p) => { v.push(p); }
            Command::PreCharge(p) => { v.push(p); }
            Command::PreCharge2(p) => { v.push(p); }
            Command::Vcomh(p) => { v.push(p); }
            Command::Invert(_) => {}
            Command::SetRemap(a, b, c) => {
                let mut param: u8 = 0x60;
                if a {
                    param = param + 0x02;
                }
                if b {
                    param = param + 0x10;
                }
                if c {
                    param = param + 0x04;
                }
                v.push(param);
            }
            Command::Column(start, end) => {
                v.push(start);
                v.push(end);
            }
            Command::Row(start, end) => {
                v.push(start);
                v.push(end);
            }
            Command::WriteRam => {}
        }
        assert(v@ =~= params(self));
        v
    }

    /// Append the bus writes that transmit this command.
    pub fn encode_into(self, ops: &mut Vec<BusOp>)
        ensures
            plan(final(ops)@) == plan(old(ops)@) + command_ops(self),
    {
        let ghost ops0 = ops@;
        let op = self.opcode_byte();
        let data = self.param_bytes();
        let mut opcode_bytes: Vec<u8> = Vec::new();
        opcode_bytes.push(op);
        let has_params = data.len() > 0;
        ops.push(BusOp::Command(opcode_bytes));
        if has_params {
            ops.push(BusOp::Data(data));
            proof {
                assert(plan(ops@) =~~= plan(ops0) + command_ops(self));
            }
        } else {
            proof {
                assert(plan(ops@) =~~= plan(ops0) + command_ops(self));
            }
        }
    }
}

} // verus!
