use ssd1351::bus::BusOp;
use ssd1351::display::Display;
use ssd1351::properties::{DisplayRotation, DisplaySize};

#[test]
fn dimensions_follow_rotation_non_square() {
    let base = Display::new((), DisplaySize::Display128x96, DisplayRotation::Rotate0);
    assert_eq!(base.get_dimensions(), (128, 96));
    let d90 = Display::new((), DisplaySize::Display128x96, DisplayRotation::Rotate90);
    assert_eq!(d90.get_dimensions(), (96, 128));
    let d180 = Display::new((), DisplaySize::Display128x96, DisplayRotation::Rotate180);
    assert_eq!(d180.get_dimensions(), (128, 96));
    let d270 = Display::new((), DisplaySize::Display128x96, DisplayRotation::Rotate270);
    assert_eq!(d270.get_dimensions(), (96, 128));
}

#[test]
fn dimensions_square_panel_rotated() {
    let d = Display::new((), DisplaySize::Display128x128, DisplayRotation::Rotate90);
    assert_eq!(d.get_dimensions(), (128, 128));
}

#[test]
fn set_rotation_emits_exactly_one_remap_command() {
    // Fixed flag table: (column remap, scan remap, colour order).
    // Rotate0 -> (false, false, true), Rotate90 -> (true, true, true),
    // Rotate180 -> (false, true, false), Rotate270 -> (true, false, false).
    let cases = [
        (DisplayRotation::Rotate0, 0x60u8 + 0x04),
        (DisplayRotation::Rotate90, 0x60 + 0x02 + 0x10 + 0x04),
        (DisplayRotation::Rotate180, 0x60 + 0x10),
        (DisplayRotation::Rotate270, 0x60 + 0x02),
    ];
    for (rotation, param) in cases {
        let mut d = Display::new((), DisplaySize::Display128x128, DisplayRotation::Rotate0);
        let ops = d.set_rotation(rotation);
        assert_eq!(ops.len(), 2);
        assert_eq!(ops[0], BusOp::Command(vec![0xA0]));
        assert_eq!(ops[1], BusOp::Data(vec![param]));
        assert_eq!(d.get_rotation(), rotation);
    }
}

#[test]
fn draw_area_encodes_end_minus_one() {
    let d = Display::new((), DisplaySize::Display128x128, DisplayRotation::Rotate0);
    let ops = d.set_draw_area((0, 0), (128, 128));
    assert_eq!(ops.len(), 5);
    assert_eq!(ops[0], BusOp::Command(vec![0x15]));
    assert_eq!(ops[1], BusOp::Data(vec![0, 127]));
    assert_eq!(ops[2], BusOp::Command(vec![0x75]));
    assert_eq!(ops[3], BusOp::Data(vec![0, 127]));
    assert_eq!(ops[4], BusOp::Command(vec![0x5C]));
}

#[test]
fn draw_area_clamps_zero_end_to_zero() {
    let d = Display::new((), DisplaySize::Display128x128, DisplayRotation::Rotate0);
    let ops = d.set_draw_area((5, 7), (0, 0));
    assert_eq!(ops[1], BusOp::Data(vec![5, 0]));
    assert_eq!(ops[3], BusOp::Data(vec![7, 0]));
}

#[test]
fn init_sets_mux_ratio_to_height_minus_one() {
    let d = Display::new((), DisplaySize::Display128x128, DisplayRotation::Rotate0);
    let ops = d.init();
    assert_eq!(ops[7], BusOp::Command(vec![0xCA]));
    assert_eq!(ops[8], BusOp::Data(vec![127]));

    let d96 = Display::new((), DisplaySize::Display128x96, DisplayRotation::Rotate0);
    let ops96 = d96.init();
    assert_eq!(ops96[7], BusOp::Command(vec![0xCA]));
    assert_eq!(ops96[8], BusOp::Data(vec![95]));
}

#[test]
fn init_sequence_shape() {
    let d = Display::new((), DisplaySize::Display128x128, DisplayRotation::Rotate0);
    let ops = d.init();
    // 30 configuration writes, 2 remap writes, a 5-write draw window,
    // one black pixel write per panel position, then display-on.
    assert_eq!(ops.len(), 30 + 2 + 5 + 128 * 128 + 1);
    assert_eq!(ops[0], BusOp::Command(vec![0xFD]));
    assert_eq!(ops[1], BusOp::Data(vec![0x12]));
    assert_eq!(ops[2], BusOp::Command(vec![0xFD]));
    assert_eq!(ops[3], BusOp::Data(vec![0xB1]));
    assert_eq!(ops[4], BusOp::Command(vec![0xAE]));
    // The stored rotation's remap precedes the clear.
    assert_eq!(ops[30], BusOp::Command(vec![0xA0]));
    assert_eq!(ops[31], BusOp::Data(vec![0x64]));
    assert_eq!(ops[32], BusOp::Command(vec![0x15]));
    assert_eq!(ops[ops.len() - 1], BusOp::Command(vec![0xAF]));
}

#[test]
fn clear_streams_one_black_pixel_per_position() {
    let d = Display::new((), DisplaySize::Display128x96, DisplayRotation::Rotate0);
    let ops = d.clear();
    assert_eq!(ops.len(), 5 + 128 * 96);
    assert_eq!(ops[1], BusOp::Data(vec![0, 127]));
    assert_eq!(ops[3], BusOp::Data(vec![0, 95]));
    assert_eq!(ops[5], BusOp::Data(vec![0x00, 0x00]));
    assert_eq!(ops[ops.len() - 1], BusOp::Data(vec![0x00, 0x00]));
}

#[test]
fn draw_streams_raw_bytes() {
    let d = Display::new((), DisplaySize::Display128x128, DisplayRotation::Rotate0);
    let ops = d.draw(&vec![1, 2, 3]);
    assert_eq!(ops.len(), 1);
    assert_eq!(ops[0], BusOp::Data(vec![1, 2, 3]));
}

#[test]
fn release_returns_the_bus_handle() {
    let d = Display::new(42u32, DisplaySize::Display128x128, DisplayRotation::Rotate0);
    assert_eq!(d.get_size(), DisplaySize::Display128x128);
    assert_eq!(d.release(), 42u32);
}
