//! The register map: the address of each register the driver touches.
//!
//! Coordinates are held in four consecutive registers, x low, x high, y low,
//! y high; only the first of each group is named here.
use vstd::prelude::*;

verus! {

/// Self test / status.
pub const SELF_TEST: u8 = 0x00;

/// Power and display control.
pub const PWRR: u8 = 0x01;

/// Memory read/write command: data written here goes to the display memory at the write cursor.
pub const MRWC: u8 = 0x02;

/// Pixel clock setting.
pub const PCSR: u8 = 0x04;

/// System configuration.
pub const SYSR: u8 = 0x10;

/// Horizontal display width.
pub const HDWR: u8 = 0x14;

/// Horizontal non-display period fine tune.
pub const HNDFTR: u8 = 0x15;

/// Horizontal non-display period.
pub const HNDR: u8 = 0x16;

/// Horizontal sync start position.
pub const HSTR: u8 = 0x17;

/// Horizontal sync pulse width.
pub const HPWR: u8 = 0x18;

/// Vertical display height, low byte.
pub const VDHR0: u8 = 0x19;

/// Vertical display height, high byte.
pub const VDHR1: u8 = 0x1A;

/// Vertical non-display period, low byte.
pub const VNDR0: u8 = 0x1B;

/// Vertical non-display period, high byte.
pub const VNDR1: u8 = 0x1C;

/// Vertical sync start position, low byte.
pub const VSTR0: u8 = 0x1D;

/// Vertical sync start position, high byte.
pub const VSTR1: u8 = 0x1E;

/// Vertical sync pulse width.
pub const VPWR: u8 = 0x1F;

/// Font control register 0: font source and attribute bits.
pub const ROM_FONT_SELECT: u8 = 0x21;

/// Font control register 1: transparency and enlargement.
pub const FONT_OPTIONS: u8 = 0x22;

/// Text cursor x, low byte; x high, y low and y high follow.
pub const TEXT_X0: u8 = 0x2A;

/// Serial font ROM setting.
pub const SERIAL_FONT_ROM: u8 = 0x2F;

/// Active window horizontal start, low byte.
pub const HSAW0: u8 = 0x30;

/// Active window horizontal start, high byte.
pub const HSAW1: u8 = 0x31;

/// Active window vertical start, low byte.
pub const VSAW0: u8 = 0x32;

/// Active window vertical start, high byte.
pub const VSAW1: u8 = 0x33;

/// Active window horizontal end, low byte.
pub const HEAW0: u8 = 0x34;

/// Active window horizontal end, high byte.
pub const HEAW1: u8 = 0x35;

/// Active window vertical end, low byte.
pub const VEAW0: u8 = 0x36;

/// Active window vertical end, high byte.
pub const VEAW1: u8 = 0x37;

/// Memory write control register 0.
pub const MWCR0: u8 = 0x40;

/// Graphics write cursor x, low byte; x high, y low and y high follow.
pub const CURH0: u8 = 0x46;

/// Background colour, red channel.
pub const TEXT_BG0: u8 = 0x60;

/// Background colour, green channel.
pub const TEXT_BG1: u8 = 0x61;

/// Background colour, blue channel.
pub const TEXT_BG2: u8 = 0x62;

/// Foreground colour, red channel.
pub const COLOR0: u8 = 0x63;

/// Foreground colour, green channel.
pub const COLOR1: u8 = 0x64;

/// Foreground colour, blue channel.
pub const COLOR2: u8 = 0x65;

/// Touch panel control register 0.
pub const TPCR0: u8 = 0x70;

/// Touch panel control register 1.
pub const TPCR1: u8 = 0x71;

/// Touch x, high eight bits.
pub const TPXH: u8 = 0x72;

/// Touch y, high eight bits.
pub const TPYH: u8 = 0x73;

/// Touch x and y, low two bits each.
pub const TPXYL: u8 = 0x74;

/// PLL control register 1.
pub const PLLC1: u8 = 0x88;

/// PLL control register 2.
pub const PLLC2: u8 = 0x89;

/// PWM1 control.
pub const P1CR: u8 = 0x8A;

/// PWM1 duty cycle.
pub const P1DCR: u8 = 0x8B;

/// PWM2 control.
pub const P2CR: u8 = 0x8C;

/// PWM2 duty cycle.
pub const P2DCR: u8 = 0x8D;

/// Memory clear control.
pub const MCLR: u8 = 0x8E;

/// Drawing control: trigger and busy flag of lines, squares, triangles and circles.
pub const DCR: u8 = 0x90;

/// Shape start point (or first triangle vertex) x, low byte; x high, y low and y high follow.
pub const SHAPE_START_X0: u8 = 0x91;

/// Shape end point (or second triangle vertex) x, low byte; x high, y low and y high follow.
pub const SHAPE_END_X0: u8 = 0x95;

/// Circle centre x, low byte; x high, y low and y high follow.
pub const CIRCLE_X0: u8 = 0x99;

/// Circle radius.
pub const CIRCLE_R: u8 = 0x9D;

/// Ellipse and curve drawing control: trigger and busy flag.
pub const ELLIPSE_CR: u8 = 0xA0;

/// Ellipse long axis, low byte.
pub const ELLIPSE_LONG_A0: u8 = 0xA1;

/// Ellipse long axis, high byte.
pub const ELLIPSE_LONG_A1: u8 = 0xA2;

/// Ellipse short axis, low byte.
pub const ELLIPSE_SHORT_B0: u8 = 0xA3;

/// Ellipse short axis, high byte.
pub const ELLIPSE_SHORT_B1: u8 = 0xA4;

/// Ellipse centre x, low byte; x high, y low and y high follow.
pub const ELLIPSE_CENTER_X0: u8 = 0xA5;

/// Third triangle vertex x, low byte; x high, y low and y high follow.
pub const TRIANGLE_P2_X0: u8 = 0xA9;

/// Extra general purpose output.
pub const GPIOX: u8 = 0xC7;

/// Interrupt enables.
pub const INTC1: u8 = 0xF0;

/// Interrupt flags; writing a flag's bit clears it.
pub const INTC2: u8 = 0xF1;

} // verus!
