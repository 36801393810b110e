use ssd1351::bus::BusOp;
use ssd1351::display::Display;
use ssd1351::graphics::{GraphicsMode, Pixel, Rect, ResetStep};
use ssd1351::properties::{DisplayRotation, DisplaySize};

fn buffered(size: DisplaySize, rotation: DisplayRotation) -> GraphicsMode<()> {
    let (w, h) = size.dimensions();
    let buffer = vec![0u8; 2 * w as usize * h as usize];
    GraphicsMode::new(Display::new((), size, rotation), buffer)
}

fn unbuffered(size: DisplaySize, rotation: DisplayRotation) -> GraphicsMode<()> {
    GraphicsMode::new(Display::new((), size, rotation), Vec::new())
}

#[test]
fn buffered_set_pixel_writes_big_endian_pair() {
    let mut g = buffered(DisplaySize::Display128x128, DisplayRotation::Rotate0);
    let ops = g.set_pixel(10, 20, 0xF800);
    assert!(ops.is_empty());
    let offset = (20 * 128 + 10) * 2;
    assert_eq!(g.fb()[offset], 0xF8);
    assert_eq!(g.fb()[offset + 1], 0x00);
}

#[test]
fn buffered_pixel_round_trips_through_elements() {
    let mut g = buffered(DisplaySize::Display128x128, DisplayRotation::Rotate0);
    g.set_pixel(3, 4, 0xABCD);
    let elements = g.get_buffer();
    assert_eq!(elements[4 * 128 + 3], 0xABCD);
}

#[test]
fn buffered_set_pixel_rotated_indexes_panel_coordinates() {
    // Logical (96, 128) under a quarter turn of the 128x96 panel; the
    // buffer itself stays in panel coordinates.
    let mut g = buffered(DisplaySize::Display128x96, DisplayRotation::Rotate90);
    g.set_pixel(5, 9, 0x1234);
    let offset = (5 * 128 + 9) * 2;
    assert_eq!(g.fb()[offset], 0x12);
    assert_eq!(g.fb()[offset + 1], 0x34);
}

#[test]
fn unbuffered_set_pixel_plans_window_and_colour() {
    let mut g = unbuffered(DisplaySize::Display128x128, DisplayRotation::Rotate0);
    let ops = g.set_pixel(10, 20, 0xF800);
    assert_eq!(ops.len(), 6);
    assert_eq!(ops[1], BusOp::Data(vec![10, 127]));
    assert_eq!(ops[3], BusOp::Data(vec![20, 127]));
    assert_eq!(ops[5], BusOp::Data(vec![0xF8, 0x00]));
}

#[test]
fn unbuffered_set_pixel_rotated_swaps_axes() {
    let mut g = unbuffered(DisplaySize::Display128x96, DisplayRotation::Rotate270);
    let ops = g.set_pixel(5, 9, 0x0001);
    assert_eq!(ops[1], BusOp::Data(vec![9, 127]));
    assert_eq!(ops[3], BusOp::Data(vec![5, 95]));
    assert_eq!(ops[5], BusOp::Data(vec![0x00, 0x01]));
}

#[test]
fn clear_then_flush_streams_all_zero_buffer() {
    let mut g = buffered(DisplaySize::Display128x128, DisplayRotation::Rotate0);
    g.set_pixel(1, 1, 0xFFFF);
    let ops = g.clear(false);
    assert!(ops.is_empty());
    let flush = g.flush();
    assert_eq!(flush.len(), 6);
    match &flush[5] {
        BusOp::Data(bytes) => {
            assert_eq!(bytes.len(), 2 * 128 * 128);
            assert!(bytes.iter().all(|b| *b == 0));
        }
        other => panic!("expected a data write, got {:?}", other),
    }
}

#[test]
fn clear_with_flush_plans_the_flush() {
    let mut g = buffered(DisplaySize::Display128x96, DisplayRotation::Rotate0);
    g.set_pixel(0, 0, 0xFFFF);
    let ops = g.clear(true);
    assert_eq!(ops.len(), 6);
    assert_eq!(ops[1], BusOp::Data(vec![0, 127]));
    assert_eq!(ops[3], BusOp::Data(vec![0, 95]));
    match &ops[5] {
        BusOp::Data(bytes) => {
            assert_eq!(bytes.len(), 2 * 128 * 96);
            assert!(bytes.iter().all(|b| *b == 0));
        }
        other => panic!("expected a data write, got {:?}", other),
    }
}

#[test]
fn unbuffered_clear_delegates_to_streaming_clear() {
    let mut g = unbuffered(DisplaySize::Display128x128, DisplayRotation::Rotate0);
    let ops = g.clear(false);
    assert_eq!(ops.len(), 5 + 128 * 128);
}

#[test]
fn flush_area_issues_one_pair_per_row() {
    let mut g = buffered(DisplaySize::Display128x128, DisplayRotation::Rotate0);
    for i in 0..g.fb().len() {
        let v = (i % 251) as u8;
        g.fb_mut()[i] = v;
    }
    let area = Rect { x: 2, y: 3, width: 4, height: 5 };
    let ops = g.flush_area(area);
    assert_eq!(ops.len(), 5 * 6);
    for row in 0..5usize {
        let y = 3 + row as u8;
        assert_eq!(ops[6 * row], BusOp::Command(vec![0x15]));
        assert_eq!(ops[6 * row + 1], BusOp::Data(vec![2, 5]));
        assert_eq!(ops[6 * row + 2], BusOp::Command(vec![0x75]));
        assert_eq!(ops[6 * row + 3], BusOp::Data(vec![y, y]));
        assert_eq!(ops[6 * row + 4], BusOp::Command(vec![0x5C]));
        let start = (y as usize * 128 + 2) * 2;
        let expected: Vec<u8> = (start..start + 8).map(|i| (i % 251) as u8).collect();
        assert_eq!(ops[6 * row + 5], BusOp::Data(expected));
    }
}

#[test]
fn flush_chunk_packs_big_endian() {
    let g = buffered(DisplaySize::Display128x128, DisplayRotation::Rotate0);
    let chunk = vec![0x1234u16, 0xABCD];
    let area = Rect { x: 1, y: 2, width: 2, height: 1 };
    let ops = g.flush_chunk(&chunk, area);
    assert_eq!(ops.len(), 6);
    assert_eq!(ops[1], BusOp::Data(vec![1, 2]));
    assert_eq!(ops[3], BusOp::Data(vec![2, 2]));
    assert_eq!(ops[5], BusOp::Data(vec![0x12, 0x34, 0xAB, 0xCD]));
}

#[test]
fn reset_is_the_fixed_pulse() {
    let g = unbuffered(DisplaySize::Display128x128, DisplayRotation::Rotate0);
    let steps = g.reset();
    assert_eq!(
        steps,
        vec![
            ResetStep::PinHigh,
            ResetStep::DelayMs(1),
            ResetStep::PinLow,
            ResetStep::DelayMs(10),
            ResetStep::PinHigh,
        ]
    );
}

#[test]
fn drop_buffer_hands_the_buffer_back() {
    let mut g = buffered(DisplaySize::Display128x128, DisplayRotation::Rotate0);
    g.set_pixel(0, 0, 0x0102);
    let buf = g.drop_buffer();
    assert_eq!(buf.len(), 2 * 128 * 128);
    assert_eq!(buf[0], 0x01);
    assert_eq!(buf[1], 0x02);
    assert!(g.fb().is_empty());
    // The surface is unbuffered from here on.
    let ops = g.set_pixel(0, 0, 0x0102);
    assert_eq!(ops.len(), 6);
}

#[test]
fn draw_iter_clips_against_logical_bounds() {
    let mut g = unbuffered(DisplaySize::Display128x128, DisplayRotation::Rotate0);
    let pixels = vec![
        Pixel { x: -1, y: 0, color: 0x1111 },
        Pixel { x: 5, y: 6, color: 0x2222 },
        Pixel { x: 200, y: 0, color: 0x3333 },
        Pixel { x: 0, y: 128, color: 0x4444 },
    ];
    let ops = g.draw_iter(&pixels);
    assert_eq!(ops.len(), 6);
    assert_eq!(ops[1], BusOp::Data(vec![5, 127]));
    assert_eq!(ops[3], BusOp::Data(vec![6, 127]));
    assert_eq!(ops[5], BusOp::Data(vec![0x22, 0x22]));
}

#[test]
fn draw_iter_buffered_writes_each_pixel() {
    let mut g = buffered(DisplaySize::Display128x128, DisplayRotation::Rotate0);
    let pixels = vec![
        Pixel { x: 0, y: 0, color: 0x0A0B },
        Pixel { x: 1, y: 0, color: 0x0C0D },
    ];
    let ops = g.draw_iter(&pixels);
    assert!(ops.is_empty());
    assert_eq!(&g.fb()[0..4], &[0x0A, 0x0B, 0x0C, 0x0D]);
}

#[test]
fn fill_contiguous_clips_and_skips_outside_colours() {
    let g = unbuffered(DisplaySize::Display128x128, DisplayRotation::Rotate0);
    let colors: Vec<u16> = (0..8).map(|i| 0x0100 + i as u16).collect();
    let ops = g.fill_contiguous(126, 0, 4, 2, &colors);
    // Clipped window is columns 126..128, rows 0..2.
    assert_eq!(ops[1], BusOp::Data(vec![126, 127]));
    assert_eq!(ops[3], BusOp::Data(vec![0, 1]));
    // Of the eight positions, four lie inside; their colours stream in
    // rectangle-traversal order.
    assert_eq!(ops.len(), 5 + 4);
    assert_eq!(ops[5], BusOp::Data(vec![0x01, 0x00]));
    assert_eq!(ops[6], BusOp::Data(vec![0x01, 0x01]));
    assert_eq!(ops[7], BusOp::Data(vec![0x01, 0x04]));
    assert_eq!(ops[8], BusOp::Data(vec![0x01, 0x05]));
}

#[test]
fn fill_contiguous_rotated_swaps_window_axes() {
    let g = unbuffered(DisplaySize::Display128x96, DisplayRotation::Rotate90);
    let colors = vec![0x0001u16, 0x0002, 0x0003, 0x0004];
    let ops = g.fill_contiguous(2, 3, 2, 2, &colors);
    assert_eq!(ops.len(), 5 + 4);
    // Window start/end swap axes: columns from the logical rows.
    assert_eq!(ops[1], BusOp::Data(vec![3, 4]));
    assert_eq!(ops[3], BusOp::Data(vec![2, 3]));
}

#[test]
fn fill_contiguous_short_colour_stream() {
    let g = unbuffered(DisplaySize::Display128x128, DisplayRotation::Rotate0);
    let colors = vec![0x0001u16];
    let ops = g.fill_contiguous(0, 0, 4, 4, &colors);
    assert_eq!(ops.len(), 5 + 1);
}

#[test]
fn buffer_element_accessors_agree() {
    let mut g = buffered(DisplaySize::Display128x128, DisplayRotation::Rotate0);
    g.set_buffer_element(7, 0xBEEF);
    assert_eq!(g.fb()[14], 0xBE);
    assert_eq!(g.fb()[15], 0xEF);
    assert_eq!(g.get_buffer()[7], 0xBEEF);
    assert_eq!(GraphicsMode::<()>::calculate_buffer_index(10, 20, 128), 2570);
}

#[test]
fn surface_delegates_to_protocol_layer() {
    let mut g = unbuffered(DisplaySize::Display128x96, DisplayRotation::Rotate0);
    assert_eq!(g.get_dimensions(), (128, 96));
    assert_eq!(g.size(), (128, 96));
    let ops = g.set_rotation(DisplayRotation::Rotate90);
    assert_eq!(ops.len(), 2);
    assert_eq!(g.get_dimensions(), (96, 128));
    // The drawing-consumer size follows the rotation too.
    assert_eq!(g.size(), (96, 128));
    let init_ops = g.init();
    assert_eq!(init_ops[8], BusOp::Data(vec![95]));
    let (display, buffer) = g.release();
    assert_eq!(display.get_rotation(), DisplayRotation::Rotate90);
    assert!(buffer.is_empty());
}
