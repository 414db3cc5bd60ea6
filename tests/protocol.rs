use ra8875::cmds::{Dcr, Intc2, Pcsr, Pwrr, PwmClk, Tpcr0};
use ra8875::driver::{to_coord, touch_pending, touch_point, Mode, RA8875};
use ra8875::ops::{modified, still_busy, RegOp};
use ra8875::regs;
use ra8875::timing::{init_sequence, timing_for};
use ra8875::transport::{frame, Command, DriverError, Frame};

fn write(reg: u8, value: u8) -> RegOp {
    RegOp::Write { reg, value }
}

#[test]
fn not_ready_sends_nothing() {
    for command in [Command::DataWrite, Command::DataRead, Command::CmdWrite, Command::CmdRead] {
        assert_eq!(frame(false, command, 0x55), Err(DriverError::NotReady));
    }
}

#[test]
fn ready_frames_carry_opcode_and_payload() {
    assert_eq!(frame(true, Command::CmdWrite, 0x90), Ok(Frame { opcode: 0x80, payload: 0x90 }));
    assert_eq!(frame(true, Command::DataWrite, 0x12), Ok(Frame { opcode: 0x00, payload: 0x12 }));
    assert_eq!(frame(true, Command::DataRead, 0x12), Ok(Frame { opcode: 0x40, payload: 0x00 }));
    assert_eq!(frame(true, Command::CmdRead, 0x12), Ok(Frame { opcode: 0xC0, payload: 0x00 }));
}

#[test]
fn command_bits_table() {
    assert_eq!(Command::CmdRead.opcode(), 0xC0);
    assert_eq!(Pcsr::Pdatl.bits(), 0x80);
    assert_eq!(Pwrr::DispOn.bits(), 0x80);
    assert_eq!(Dcr::DRAWSQUARE.bits(), 0x10);
    assert_eq!(Tpcr0::WAIT_16384CLK.bits(), 0x50);
    assert_eq!(Intc2::TP.bits(), 0x04);
    assert_eq!(PwmClk::Div32768.bits(), 0x0F);
}

#[test]
fn modify_and_poll_decisions() {
    assert_eq!(modified(0x12, 0xF0, 0x05), 0x15);
    assert_eq!(modified(0x3F, 0xBF, 0x00), 0x3F);
    assert_eq!(modified(0x7F, 0xFF, 0x80), 0xFF);
    assert!(still_busy(0x80, 0x80));
    assert!(still_busy(0xC1, 0x40));
    assert!(!still_busy(0x7F, 0x80));
}

#[test]
fn timing_of_supported_panels() {
    let small = timing_for(480, 272).unwrap();
    assert_eq!(small.pixclk, 0x82);
    assert_eq!((small.hsync_nondisp, small.hsync_start, small.hsync_pw, small.hsync_finetune), (10, 8, 48, 0));
    assert_eq!((small.vsync_nondisp, small.vsync_start, small.vsync_pw), (3, 8, 10));
    let large = timing_for(800, 480).unwrap();
    assert_eq!(large.pixclk, 0x81);
    assert_eq!((large.hsync_nondisp, large.hsync_start, large.hsync_pw, large.hsync_finetune), (26, 32, 96, 0));
    assert_eq!((large.vsync_nondisp, large.vsync_start, large.vsync_pw), (32, 23, 2));
}

#[test]
fn unsupported_timing_is_refused() {
    assert_eq!(timing_for(320, 240), Err(DriverError::UnsupportedConfiguration));
    assert_eq!(timing_for(272, 480), Err(DriverError::UnsupportedConfiguration));
    assert_eq!(timing_for(800, 272), Err(DriverError::UnsupportedConfiguration));
}

#[test]
fn init_registers_small_panel() {
    let ops = RA8875::new((480, 272)).init().unwrap().ops;
    let expected = vec![
        write(0x10, 0x0C), write(0x04, 0x82),
        write(0x14, 59), write(0x15, 0), write(0x16, 1), write(0x17, 0), write(0x18, 5),
        write(0x19, 0x0F), write(0x1A, 1), write(0x1B, 2), write(0x1C, 0),
        write(0x1D, 7), write(0x1E, 0), write(0x1F, 9),
        write(0x30, 0), write(0x31, 0), write(0x34, 0xDF), write(0x35, 1),
        write(0x32, 0), write(0x33, 0), write(0x36, 0x0F), write(0x37, 1),
        write(0x8E, 0x80),
    ];
    assert_eq!(ops, expected);
}

#[test]
fn init_registers_large_panel() {
    let ops = init_sequence(800, 480).unwrap();
    let expected = vec![
        write(0x10, 0x0C), write(0x04, 0x81),
        write(0x14, 99), write(0x15, 0), write(0x16, 3), write(0x17, 3), write(0x18, 11),
        write(0x19, 0xDF), write(0x1A, 1), write(0x1B, 31), write(0x1C, 0),
        write(0x1D, 22), write(0x1E, 0), write(0x1F, 1),
        write(0x30, 0), write(0x31, 0), write(0x34, 0x1F), write(0x35, 3),
        write(0x32, 0), write(0x33, 0), write(0x36, 0xDF), write(0x37, 1),
        write(0x8E, 0x80),
    ];
    assert_eq!(ops, expected);
}

#[test]
fn init_of_unsupported_panel_writes_nothing() {
    for dims in [(0, 0), (320, 240), (480, 480), (1024, 600)] {
        assert!(matches!(RA8875::new(dims).init(), Err(DriverError::UnsupportedConfiguration)));
    }
}

#[test]
fn power_pll_gpio_and_pwm() {
    let d = RA8875::new((480, 272));
    assert_eq!(d.display_on(true).ops, vec![write(regs::PWRR, 0x80)]);
    assert_eq!(d.display_on(false).ops, vec![write(regs::PWRR, 0x00)]);
    assert_eq!(d.set_up_pll().ops, vec![write(0x88, 0x0A), write(0x89, 0x02)]);
    assert_eq!(d.gpiox(true).ops, vec![write(0xC7, 1)]);
    assert_eq!(d.gpiox(false).ops, vec![write(0xC7, 0)]);
    assert_eq!(d.pwm1_config(true, 0x1A).ops, vec![write(0x8A, 0x8A)]);
    assert_eq!(d.pwm1_config(false, 0x1A).ops, vec![write(0x8A, 0x0A)]);
    assert_eq!(d.pwm2_config(true, 0x03).ops, vec![write(0x8C, 0x83)]);
    assert_eq!(d.pwm1_out(200).ops, vec![write(0x8B, 200)]);
    assert_eq!(d.pwm2_out(7).ops, vec![write(0x8D, 7)]);
    assert_eq!(d.self_check().ops, vec![RegOp::Read { reg: 0x00 }]);
    assert_eq!(d.self_check().next, d);
}

#[test]
fn new_driver_starts_in_graphics_mode() {
    let d = RA8875::new((800, 480));
    assert_eq!(d.mode, Mode::Graphics);
    assert_eq!(d.size(), (800, 480));
    assert_eq!(d.gfx_settings.cursor, (0, 0));
    assert_eq!(d.text_settings.text_scale, 1);
    assert_eq!(d.text_settings.bg_color, None);
}

#[test]
fn text_mode_twice_selects_rom_font_once() {
    let d = RA8875::new((480, 272));
    let first = d.text_mode();
    assert_eq!(
        first.ops,
        vec![
            RegOp::Modify { reg: 0x40, keep: 0xFF, set: 0x80, reselect: false },
            RegOp::Modify { reg: 0x21, keep: 0xA0, set: 0x00, reselect: false },
            write(0x2F, 0x00),
        ]
    );
    assert_eq!(first.next.mode, Mode::Text);
    let second = first.next.text_mode();
    assert!(second.ops.is_empty());
    assert_eq!(second.next, first.next);
}

#[test]
fn graphics_mode_twice_switches_once() {
    let d = RA8875::new((480, 272)).text_mode().next;
    let first = d.graphics_mode();
    assert_eq!(first.ops, vec![RegOp::Modify { reg: 0x40, keep: 0x7F, set: 0x00, reselect: false }]);
    assert_eq!(first.next.mode, Mode::Graphics);
    let second = first.next.graphics_mode();
    assert!(second.ops.is_empty());
    assert_eq!(second.next, first.next);
    assert!(RA8875::new((480, 272)).graphics_mode().ops.is_empty());
}

#[test]
fn text_scale_patterns() {
    let d = RA8875::new((480, 272));
    for (scale, pattern) in [(0u8, 0x0u8), (1, 0x5), (2, 0xA), (3, 0xF), (9, 0xF)] {
        let job = d.set_text_scale(scale);
        assert_eq!(job.ops, vec![RegOp::Modify { reg: 0x22, keep: 0xF0, set: pattern, reselect: false }]);
        assert_eq!(job.next.text_settings.text_scale, scale);
    }
}

#[test]
fn touch_readout_decodes_and_clears() {
    let d = RA8875::new((480, 272));
    assert_eq!(d.touched().ops, vec![RegOp::Read { reg: 0xF1 }]);
    assert!(touch_pending(0x04));
    assert!(touch_pending(0xFF));
    assert!(!touch_pending(0xFB));
    assert_eq!(
        d.get_touch().ops,
        vec![
            RegOp::Read { reg: 0x72 },
            RegOp::Read { reg: 0x73 },
            RegOp::Read { reg: 0x74 },
            write(0xF1, 0x04),
        ]
    );
    assert_eq!(touch_point(0x12, 0x34, 0b1001), (0x49, 0xD2));
    assert_eq!(touch_point(0xFF, 0xFF, 0xFF), (1023, 1023));
    assert_eq!(touch_point(0, 0, 0), (0, 0));
}

#[test]
fn enable_touch_steps() {
    let d = RA8875::new((480, 272));
    assert_eq!(
        d.enable_touch().ops,
        vec![
            write(0x70, 0xD5),
            write(0x71, 0x04),
            RegOp::Modify { reg: 0xF0, keep: 0xFF, set: 0x04, reselect: true },
        ]
    );
}

#[test]
fn to_coord_keeps_low_sixteen_bits() {
    assert_eq!(to_coord((10, -3)), (10, -3));
    assert_eq!(to_coord((70000, -70000)), (4464, -4464));
}

#[test]
fn pixel_bytes_high_first() {
    assert_eq!(ra8875::ops::pixel_bytes(0xABCD), (0xAB, 0xCD));
    assert_eq!(ra8875::ops::pixel_bytes(0x00FF), (0x00, 0xFF));
}
