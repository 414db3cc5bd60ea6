use ra8875::driver::{Mode, RA8875};
use ra8875::ops::RegOp;
use ra8875::transport::DriverError;

fn write(reg: u8, value: u8) -> RegOp {
    RegOp::Write { reg, value }
}

fn point(base: u8, x: i16, y: i16) -> Vec<RegOp> {
    vec![
        write(base, x as u8),
        write(base + 1, (x >> 8) as u8),
        write(base + 2, y as u8),
        write(base + 3, (y >> 8) as u8),
    ]
}

fn colors(c: u16) -> Vec<RegOp> {
    vec![write(0x63, (c >> 11) as u8), write(0x64, ((c >> 5) & 0x3F) as u8), write(0x65, (c & 0x1F) as u8)]
}

fn concat(parts: Vec<Vec<RegOp>>) -> Vec<RegOp> {
    parts.into_iter().flatten().collect()
}

fn skeleton(ops: &[RegOp]) -> Vec<RegOp> {
    ops.iter()
        .map(|op| match *op {
            RegOp::Write { reg, .. } => RegOp::Write { reg, value: 0 },
            other => other,
        })
        .collect()
}

#[test]
fn rect_and_fill_screen_share_template() {
    let d = RA8875::new((480, 272));
    let outline = d.draw_rect((10, 10), (50, 50), 0xFFFF, false).ops;
    let screen = d.fill_screen(0x0000).ops;
    assert_eq!(skeleton(&outline), skeleton(&screen));
    let n = outline.len();
    assert_eq!(outline[n - 2], write(0x90, 0x90));
    assert_eq!(screen[n - 2], write(0x90, 0xB0));
    assert_eq!(0x90 | 0x20, 0xB0);
    assert_eq!(outline[n - 1], RegOp::WaitClear { reg: 0x90, mask: 0x80 });
    assert_eq!(screen[n - 1], RegOp::WaitClear { reg: 0x90, mask: 0x80 });
    assert_eq!(&screen[..8], &concat(vec![point(0x91, 0, 0), point(0x95, 480, 272)])[..]);
}

#[test]
fn rect_fill_flag_changes_only_trigger() {
    let d = RA8875::new((800, 480));
    let outline = d.draw_rect((10, 10), (50, 50), 0x1234, false).ops;
    let filled = d.draw_rect((10, 10), (50, 50), 0x1234, true).ops;
    let expected = concat(vec![
        point(0x91, 10, 10),
        point(0x95, 50, 50),
        colors(0x1234),
        vec![write(0x90, 0x90), RegOp::WaitClear { reg: 0x90, mask: 0x80 }],
    ]);
    assert_eq!(outline, expected);
    let differing: Vec<usize> = (0..outline.len()).filter(|&i| outline[i] != filled[i]).collect();
    assert_eq!(differing, vec![outline.len() - 2]);
}

#[test]
fn line_steps() {
    let d = RA8875::new((480, 272));
    let job = d.draw_line((1, 2), (300, -4), 0xF800);
    let expected = concat(vec![
        point(0x91, 1, 2),
        point(0x95, 300, -4),
        vec![write(0x63, 0x1F), write(0x64, 0), write(0x65, 0)],
        vec![write(0x90, 0x80), RegOp::WaitClear { reg: 0x90, mask: 0x80 }],
    ]);
    assert_eq!(job.ops, expected);
    assert_eq!(job.next, d);
    assert_eq!(d.draw_vline((5, 6), 10, 0).ops[4..8], point(0x95, 5, 16)[..]);
    assert_eq!(d.draw_hline((5, 6), 10, 0).ops[4..8], point(0x95, 15, 6)[..]);
}

#[test]
fn colour_fields_split_five_six_five() {
    let d = RA8875::new((480, 272));
    assert_eq!(d.set_colors(0xF81F, None).ops, vec![write(0x63, 0x1F), write(0x64, 0x00), write(0x65, 0x1F)]);
    assert_eq!(d.set_colors(0x07E0, None).ops, vec![write(0x63, 0x00), write(0x64, 0x3F), write(0x65, 0x00)]);
}

#[test]
fn text_mode_colours_set_background_and_transparency() {
    let d = RA8875::new((480, 272)).text_mode().next;
    let opaque = d.set_colors(0xFFFF, Some(0x001F));
    assert_eq!(
        opaque.ops,
        concat(vec![
            colors(0xFFFF),
            vec![write(0x60, 0), write(0x61, 0), write(0x62, 0x1F)],
            vec![RegOp::Modify { reg: 0x22, keep: 0xBF, set: 0, reselect: false }],
        ])
    );
    assert_eq!(opaque.next.text_settings.fg_color, 0xFFFF);
    assert_eq!(opaque.next.text_settings.bg_color, Some(0x001F));
    assert!(!opaque.next.text_settings.transparency);
    let clear = d.set_colors(0x1234, None);
    assert_eq!(
        clear.ops,
        concat(vec![colors(0x1234), vec![RegOp::Modify { reg: 0x22, keep: 0xFF, set: 0x40, reselect: false }]])
    );
    assert!(clear.next.text_settings.transparency);
}

#[test]
fn cursor_registers_follow_mode() {
    let d = RA8875::new((480, 272));
    let g = d.set_cursor((300, 20));
    assert_eq!(g.ops, point(0x46, 300, 20));
    assert_eq!(g.next.gfx_settings.cursor, (300, 20));
    let t = d.text_mode().next.set_cursor((7, 9));
    assert_eq!(t.ops, point(0x2A, 7, 9));
    assert_eq!(t.next.text_settings.cursor, (7, 9));
    assert_eq!(t.next.gfx_settings.cursor, (0, 0));
}

#[test]
fn circle_triangle_ellipse_curve_triggers() {
    let d = RA8875::new((480, 272));
    let c = d.draw_circle((100, 50), 300, 0, true).ops;
    assert_eq!(c[4], write(0x9D, 300u16 as u8));
    assert_eq!(c[c.len() - 2..], [write(0x90, 0x60), RegOp::WaitClear { reg: 0x90, mask: 0x40 }]);
    assert_eq!(d.draw_circle((100, 50), 30, 0, false).ops[8], write(0x90, 0x40));
    let t = d.draw_triangle((0, 0), (10, 0), (5, 8), 0, false).ops;
    assert_eq!(t[8..12], point(0xA9, 5, 8)[..]);
    assert_eq!(t[t.len() - 2..], [write(0x90, 0x81), RegOp::WaitClear { reg: 0x90, mask: 0x80 }]);
    let tf = d.draw_triangle((0, 0), (10, 0), (5, 8), 0, true).ops;
    assert_eq!(tf[tf.len() - 2], write(0x90, 0xA1));
    let e = d.draw_ellipse((200, 100), 0x0123, 40, 0, false).ops;
    assert_eq!(e[4..8], [write(0xA1, 0x23), write(0xA2, 0x01), write(0xA3, 40), write(0xA4, 0)]);
    assert_eq!(e[e.len() - 2..], [write(0xA0, 0x80), RegOp::WaitClear { reg: 0xA0, mask: 0x80 }]);
    assert_eq!(d.draw_ellipse((200, 100), 5, 4, 0, true).ops[11], write(0xA0, 0xC0));
    let k = d.draw_curve((200, 100), 5, 4, 0x06, 0, true).ops;
    assert_eq!(k[k.len() - 2], write(0xA0, 0xD2));
    assert_eq!(d.draw_curve((200, 100), 5, 4, 3, 0, false).ops[11], write(0xA0, 0x93));
}

#[test]
fn single_point_and_pixel_runs() {
    let d = RA8875::new((480, 272));
    let job = d.draw_point((3, 4), 0xABCD);
    let expected = concat(vec![
        point(0x46, 3, 4),
        vec![
            RegOp::Select { reg: 0x02 },
            RegOp::StreamStart,
            RegOp::Pixels { color: 0xABCD, count: 1 },
            RegOp::StreamEnd,
        ],
    ]);
    assert_eq!(job.ops, expected);
    assert_eq!(job.next.gfx_settings.cursor, (3, 4));
    assert_eq!(
        d.push_pixels(1000, 0x07E0).ops,
        vec![
            RegOp::Select { reg: 0x02 },
            RegOp::StreamStart,
            RegOp::Pixels { color: 0x07E0, count: 1000 },
            RegOp::StreamEnd,
        ]
    );
}

#[test]
fn pixels_off_panel_are_skipped() {
    let d = RA8875::new((480, 272));
    assert!(d.contains(0, 0));
    assert!(d.contains(479, 271));
    assert!(!d.contains(480, 0));
    assert!(!d.contains(0, 272));
    assert!(!d.contains(-1, 5));
    assert!(d.draw_pixel(480, 10, 0xFFFF).ops.is_empty());
    assert_eq!(d.draw_pixel(479, 271, 0xFFFF).ops, d.draw_point((479, 271), 0xFFFF).ops);
}

#[test]
fn fill_contiguous_sets_cursor_once_per_row() {
    let d = RA8875::new((480, 272));
    let job = d.fill_contiguous((10, 20), (3, 2), &[1, 2, 3, 4, 5, 6]);
    let cursor_sets = job.ops.iter().filter(|op| matches!(op, RegOp::Write { reg: 0x46, .. })).count();
    assert_eq!(cursor_sets, 2);
    let row = |y: i16| concat(vec![vec![RegOp::StreamEnd], point(0x46, 10, y), vec![RegOp::Select { reg: 0x02 }, RegOp::StreamStart]]);
    let px = |c: u16| RegOp::Pixels { color: c, count: 1 };
    let expected = concat(vec![
        row(20),
        vec![px(1), px(2), px(3)],
        row(21),
        vec![px(4), px(5), px(6)],
        vec![RegOp::StreamEnd],
    ]);
    assert_eq!(job.ops, expected);
    assert_eq!(job.next.gfx_settings.cursor, (10, 21));
}

#[test]
fn fill_contiguous_stops_at_shorter_input() {
    let d = RA8875::new((480, 272));
    let short = d.fill_contiguous((0, 0), (3, 2), &[9, 9, 9, 9]);
    assert_eq!(short.ops.iter().filter(|op| matches!(op, RegOp::Pixels { .. })).count(), 4);
    assert_eq!(short.next.gfx_settings.cursor, (0, 1));
    let long = d.fill_contiguous((0, 0), (2, 1), &[1, 2, 3, 4]);
    assert_eq!(long.ops.iter().filter(|op| matches!(op, RegOp::Pixels { .. })).count(), 2);
    let empty = d.fill_contiguous((0, 0), (0, 5), &[1, 2]);
    assert!(empty.ops.is_empty());
    assert_eq!(empty.next, d);
}

#[test]
fn fill_solid_draws_from_bottom_right() {
    let d = RA8875::new((480, 272));
    let job = d.fill_solid((10, 20), (5, 3), 0x1111);
    assert_eq!(job.ops, d.draw_rect((14, 22), (10, 20), 0x1111, true).ops);
    assert!(d.fill_solid((10, 20), (0, 3), 0x1111).ops.is_empty());
}

#[test]
fn text_only_in_text_mode() {
    let d = RA8875::new((480, 272));
    assert!(matches!(d.write_text(b"hi"), Err(DriverError::InvalidModeOperation)));
    let t = d.text_mode().next;
    assert_eq!(t.mode, Mode::Text);
    let job = t.write_text(b"hi").unwrap();
    assert_eq!(job.ops, vec![RegOp::Select { reg: 0x02 }, RegOp::Data { value: b'h' }, RegOp::Data { value: b'i' }]);
    assert_eq!(t.write_text(b"").unwrap().ops, vec![RegOp::Select { reg: 0x02 }]);
}
