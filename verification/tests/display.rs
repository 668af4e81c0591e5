use uhrwerk::display::blend::{
    bayer_at, blend565, dither565, pack565, BlendClipped, BlendTarget, Dot, Rect, Rgb565,
};
use uhrwerk::display::co5300::{fb_bytes_for_rows, PanelOp, Rotation, CO5300, FB_BYTES, HEIGHT, WIDTH};
use uhrwerk::firmware::display::{
    command_actions, command_transfer, init_display, init_display_lit, pixel_actions, pixel_chunks, BootStep,
    PipeAction, Transfer, Wires, FB_BYTES_PER_TILE, NUM_TILES, TILE_H, TX_BUF_SIZE,
};

const RED: u16 = 0xF800;

fn red() -> Rgb565 {
    Rgb565::new(31, 0, 0)
}

fn buffer(rows: u16) -> Vec<u8> {
    vec![0; fb_bytes_for_rows(rows)]
}

/// The pixel at framebuffer position `(x, y)`.
fn at(d: &CO5300, x: usize, y: usize) -> u16 {
    let i = (y * 410 + x) * 2;
    d.framebuffer()[i] as u16 * 256 + d.framebuffer()[i + 1] as u16
}

fn lit(d: &CO5300) -> usize {
    d.framebuffer().chunks(2).filter(|p| p != &[0, 0]).count()
}

fn command(op: &PanelOp) -> (u8, Vec<u8>) {
    match op {
        PanelOp::Command { command, params } => (*command, params.clone()),
        _ => panic!("no command"),
    }
}

#[test]
fn buffer_sizes() {
    assert_eq!((WIDTH, HEIGHT, FB_BYTES), (410, 502, 411_640));
    assert_eq!(fb_bytes_for_rows(HEIGHT), FB_BYTES);
    assert_eq!(fb_bytes_for_rows(TILE_H), FB_BYTES_PER_TILE);
    assert_eq!(FB_BYTES_PER_TILE, 41_000);
    assert_eq!(NUM_TILES, 11);
}

#[test]
fn fills_are_clipped_to_the_tile() {
    let mut fb = buffer(4);
    let mut d = CO5300::new(&mut fb);
    d.set_tile_y(10);
    d.fill_solid(408, 8, 10, 4, RED);
    assert_eq!(lit(&d), 4);
    assert_eq!((at(&d, 408, 0), at(&d, 409, 1), at(&d, 407, 0), at(&d, 409, 2)), (RED, RED, 0, 0));
    d.draw_pixel(0, 13, 0x1234);
    d.draw_pixel(0, 14, 0x1234);
    d.draw_pixel(410, 12, 0x1234);
    assert_eq!(at(&d, 0, 3), 0x1234);
    assert_eq!(lit(&d), 5);
    d.clear(red());
    assert_eq!(lit(&d), 4 * 410);
}

#[test]
fn blits_keep_their_source_rows() {
    let mut fb = buffer(2);
    let mut d = CO5300::new(&mut fb);
    d.set_tile_y(2);
    d.draw_raw(1, 1, 2, 3, &[1, 2, 3, 4, 5, 6]);
    assert_eq!((at(&d, 1, 0), at(&d, 2, 0), at(&d, 1, 1), at(&d, 2, 1)), (3, 4, 5, 6));
    let area = Rect { x: -1, y: 2, w: 3, h: 1 };
    d.fill_contiguous(&area, &[Rgb565::new(0, 0, 1), Rgb565::new(0, 0, 2), Rgb565::new(0, 0, 3)]);
    assert_eq!((at(&d, 0, 0), at(&d, 1, 0), at(&d, 2, 0)), (2, 3, 4));
    d.fill_contiguous(&Rect { x: 5, y: 2, w: 2, h: 2 }, &[red(), red(), red()]);
    assert_eq!((at(&d, 6, 0), at(&d, 5, 1), at(&d, 6, 1)), (RED, RED, 0));
}

#[test]
fn dots_outside_are_dropped() {
    let mut fb = buffer(2);
    let mut d = CO5300::new(&mut fb);
    let dots: Vec<Dot> = [(0, 0), (-1, 0), (410, 0), (0, 2), (0, -1), (409, 1)]
        .iter()
        .map(|(x, y)| Dot { x: *x, y: *y, color: red() })
        .collect();
    d.draw_iter(&dots);
    assert_eq!(lit(&d), 2);
    assert_eq!((at(&d, 0, 0), at(&d, 409, 1)), (RED, RED));
}

#[test]
fn blending_reads_the_pixel_back() {
    let mut fb = buffer(2);
    let mut d = CO5300::new(&mut fb);
    d.fill_area(&Rect { x: 0, y: 0, w: 3, h: 1 }, Rgb565::new(0, 63, 0));
    d.blend_pixel(0, 0, red(), 0);
    d.blend_pixel(1, 0, red(), 128);
    d.blend_pixel(2, 0, red(), 255);
    assert_eq!((at(&d, 0, 0), at(&d, 1, 0), at(&d, 2, 0)), (0x07E0, blend565(0x07E0, RED, 128), RED));
    d.fill_blend(0, 0, 2, 5, red(), 100);
    assert_eq!(at(&d, 0, 0), blend565(0x07E0, RED, 100));
    assert_eq!(at(&d, 0, 1), blend565(0, RED, 100));
}

#[test]
fn gradient_is_seamless_across_tiles() {
    let (top, bottom) = (Rgb565::new(0, 0, 0), Rgb565::new(31, 63, 31));
    let mut whole = buffer(8);
    let mut d = CO5300::new(&mut whole);
    d.fill_vgradient(3, 1, 5, 7, top, bottom);
    let expected: Vec<u16> = (4..8).map(|y| at(&d, 5, y)).collect();
    let mut half = buffer(4);
    let mut d = CO5300::new(&mut half);
    d.set_tile_y(4);
    d.fill_vgradient(3, 1, 5, 7, top, bottom);
    let got: Vec<u16> = (0..4).map(|y| at(&d, 5, y)).collect();
    assert_eq!(got, expected);
    // The last row is the bottom colour, whatever the threshold.
    assert_eq!(got[3], 0xFFFF);
}

#[test]
fn clip_drops_what_lies_outside() {
    let mut fb = buffer(20);
    let mut d = CO5300::new(&mut fb);
    {
        let mut c = BlendClipped::new(&mut d, &Rect { x: 5, y: 5, w: 4, h: 4 });
        assert_eq!(c.bounding_box(), Rect { x: 5, y: 5, w: 4, h: 4 });
        c.fill_area(&Rect { x: 0, y: 0, w: 7, h: 7 }, red());
    }
    assert_eq!(lit(&d), 4);
    assert_eq!((at(&d, 5, 5), at(&d, 6, 6), at(&d, 4, 5), at(&d, 7, 7)), (RED, RED, 0, 0));
    {
        let mut c = BlendClipped::new(&mut d, &Rect { x: 5, y: 5, w: 4, h: 4 });
        c.draw_iter(&[Dot { x: 8, y: 8, color: red() }, Dot { x: 9, y: 8, color: red() }]);
        c.blend_pixel(8, 7, red(), 255);
        c.blend_pixel(8, 4, red(), 255);
        c.fill_blend(0, 8, 100, 100, red(), 255);
    }
    assert_eq!((at(&d, 8, 8), at(&d, 9, 8), at(&d, 8, 7), at(&d, 8, 4)), (RED, 0, RED, 0));
    assert_eq!(lit(&d), 4 + 1 + 4);
}

#[test]
fn clip_is_cut_to_the_parent() {
    let mut fb = buffer(2);
    let mut d = CO5300::new(&mut fb);
    let c = BlendClipped::new(&mut d, &Rect { x: -10, y: 500, w: 30, h: 30 });
    assert_eq!(c.bounding_box(), Rect { x: 0, y: 500, w: 20, h: 2 });
    let mut fb = buffer(2);
    let mut d = CO5300::new(&mut fb);
    let c = BlendClipped::new(&mut d, &Rect { x: 500, y: 0, w: 5, h: 5 });
    assert_eq!(c.bounding_box(), Rect { x: 0, y: 0, w: 0, h: 0 });
}

#[test]
fn clipped_gradient_keeps_its_ramp() {
    let (top, bottom) = (Rgb565::new(0, 0, 0), Rgb565::new(31, 63, 31));
    let mut plain = buffer(10);
    let mut a = CO5300::new(&mut plain);
    a.fill_vgradient(0, 0, 10, 10, top, bottom);
    let mut cut = buffer(10);
    let mut b = CO5300::new(&mut cut);
    BlendClipped::new(&mut b, &Rect { x: 2, y: 3, w: 4, h: 4 }).fill_vgradient(0, 0, 10, 10, top, bottom);
    for y in 0..10 {
        for x in 0..10 {
            let inside = (2..6).contains(&x) && (3..7).contains(&y);
            assert_eq!(at(&b, x, y), if inside { at(&a, x, y) } else { 0 });
        }
    }
}

#[test]
fn colours_and_thresholds() {
    assert_eq!(pack565(Rgb565::new(31, 63, 31)), 0xFFFF);
    assert_eq!(pack565(Rgb565::new(33, 65, 1)), 0x0821);
    assert_eq!((bayer_at(0, 0), bayer_at(1, 0), bayer_at(2, 1), bayer_at(-1, -1)), (0, 8, 14, 5));
    assert_eq!(dither565(255, 255, 255, 15), 0xFFFF);
    assert_eq!(dither565(0, 0, 0, 15), 0);
    assert_eq!(dither565(4, 0, 0, 15), 0x0800);
}

#[test]
fn configuration_commands() {
    let mut fb = buffer(2);
    let d = CO5300::new(&mut fb);
    let init: Vec<(u8, Vec<u8>)> = d.init(0x7F).iter().map(command).collect();
    assert_eq!(
        init,
        vec![
            (0xC4, vec![0x80]),
            (0x3A, vec![0x55]),
            (0x35, vec![0x00]),
            (0x53, vec![0x20]),
            (0x51, vec![0x7F]),
            (0x63, vec![0xFF]),
        ]
    );
    assert_eq!(command(&d.set_rotation(Rotation::Deg180)[0]), (0x36, vec![0xC0]));
    assert_eq!(command(&d.sleep()[0]), (0x10, vec![]));
    assert_eq!(command(&d.wake()[0]), (0x11, vec![]));
    assert_eq!(command(&d.display_on()[0]), (0x29, vec![]));
    assert_eq!(command(&d.display_off()[0]), (0x28, vec![]));
    assert_eq!(command(&d.write_cmd(0x44, &[1, 2])[0]), (0x44, vec![1, 2]));
    assert!(matches!(d.flush_pending(), PanelOp::Drain));
}

fn pixels(op: &PanelOp) -> (usize, usize) {
    match op {
        PanelOp::Pixels { first: true, start, end } => (*start, *end),
        _ => panic!("no pixels"),
    }
}

#[test]
fn tiles_cover_the_panel() {
    let mut rows = vec![0; HEIGHT as usize];
    for i in 0..NUM_TILES {
        let mut fb = buffer(TILE_H);
        let mut d = CO5300::new(&mut fb);
        d.set_tile_y(i as u16 * TILE_H);
        let ops = d.flush_tile();
        assert_eq!(command(&ops[0]), (0x2A, vec![0, 22, 1, 175]));
        let (_, raset) = command(&ops[1]);
        let y0 = raset[0] as usize * 256 + raset[1] as usize;
        let y1 = raset[2] as usize * 256 + raset[3] as usize;
        assert_eq!(pixels(&ops[2]), (0, (y1 + 1 - y0) * 820));
        assert_eq!((y0 % 2, y1 % 2), (0, 1));
        for r in &mut rows[y0..=y1] {
            *r += 1;
        }
    }
    assert!(rows.iter().all(|n| *n == 1));
    let mut fb = buffer(TILE_H);
    let mut d = CO5300::new(&mut fb);
    d.set_tile_y(502);
    assert!(d.flush_tile().is_empty());
}

#[test]
fn bands_are_rounded_to_row_pairs() {
    let mut fb = buffer(20);
    let d = CO5300::new(&mut fb);
    let ops = d.flush_rows(3, 6);
    assert_eq!(command(&ops[1]), (0x2B, vec![0, 2, 0, 5]));
    assert_eq!(pixels(&ops[2]), (2 * 820, 6 * 820));
    let ops = d.flush_rows(18, 99);
    assert_eq!(command(&ops[1]), (0x2B, vec![0, 18, 0, 19]));
    assert!(d.flush_rows(6, 6).is_empty());
    assert!(d.flush_rows(20, 30).is_empty());
    assert!(d.flush_rows(20, 0xFFFF).is_empty());
}

#[test]
fn pixel_writes_go_in_chunks() {
    let c = pixel_chunks(true, FB_BYTES_PER_TILE, TX_BUF_SIZE);
    assert_eq!(
        c,
        vec![
            Transfer { wires: Wires::Quad, opcode: 0x32, address: 0x2C00, start: 0, end: 32_736 },
            Transfer { wires: Wires::Quad, opcode: 0x32, address: 0x3C00, start: 32_736, end: 41_000 },
        ]
    );
    assert_eq!(pixel_chunks(false, 10, 10)[0].address, 0x3C00);
    assert_eq!(pixel_chunks(true, 21, 10).len(), 3);
    assert!(pixel_chunks(true, 0, 10).is_empty());
    assert_eq!(
        command_transfer(0x2A, 4),
        Transfer { wires: Wires::Single, opcode: 0x02, address: 0x2A00, start: 0, end: 4 }
    );
}

#[test]
fn transfers_wait_for_each_other() {
    let start = PipeAction::Start(command_transfer(0x2A, 4));
    assert_eq!(command_actions(false, 0x2A, 4), vec![start, PipeAction::Wait]);
    assert_eq!(command_actions(true, 0x2A, 4), vec![PipeAction::Wait, start, PipeAction::Wait]);
    let chunks = pixel_chunks(true, 15, 10);
    let (a, b) = (PipeAction::Start(chunks[0]), PipeAction::Start(chunks[1]));
    assert_eq!(pixel_actions(false, true, 15, 10), vec![a, PipeAction::Wait, b]);
    assert_eq!(pixel_actions(true, true, 15, 10), vec![PipeAction::Wait, a, PipeAction::Wait, b]);
    assert!(pixel_actions(true, true, 0, 10).is_empty());
}

#[test]
fn boot_sequences() {
    let mut fb = buffer(TILE_H);
    let (d, steps) = init_display(&mut fb, 9);
    assert_eq!(d.fb_rows(), TILE_H);
    let waits: Vec<u32> = steps
        .iter()
        .filter_map(|s| match s {
            BootStep::WaitMs(ms) => Some(*ms),
            _ => None,
        })
        .collect();
    assert_eq!(waits, vec![10, 10, 120, 120]);
    assert!(matches!(steps[0], BootStep::Panel(PanelOp::Reset(true))));
    assert!(matches!(steps[2], BootStep::Panel(PanelOp::Reset(false))));
    assert!(matches!(&steps[12], BootStep::Panel(PanelOp::Command { command: 0x11, .. })));
    assert_eq!(steps.len(), 14);
    let mut fb = buffer(TILE_H);
    let (_, steps) = init_display_lit(&mut fb, 9);
    assert!(matches!(&steps[14], BootStep::Panel(PanelOp::Command { command: 0x29, .. })));
    assert!(matches!(steps[15], BootStep::WaitMs(70)));
}
