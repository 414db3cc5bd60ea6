//! The driver proper: the tracked state of one chip, and for every operation
//! the register steps it takes and the state it leaves behind.
use vstd::prelude::*;
use crate::cmds::{Dcr, DrawEllipseCR, Intc2, Mwcr0, P1cr, P2cr, PllC1, PllC2, Pwrr};
use crate::ops::{color_writes, point_writes, push_color, push_point, Coord, RegOp};
use crate::regs;
use crate::timing::{init_sequence, init_writes, supported};
use crate::transport::DriverError;

verus! {

/// The addressing mode of the display memory.
#[derive(Clone, Copy, Debug, PartialEq, Eq, Structural)]
pub enum Mode {
    Text,
    Graphics,
}

/// What the driver last wrote in text mode.
#[derive(Clone, Copy, Debug, PartialEq, Eq)]
pub struct TextModeSettings {
    pub cursor: Coord,
    pub fg_color: u16,
    pub bg_color: Option<u16>,
    pub text_scale: u8,
    pub transparency: bool,
}

/// What the driver last wrote in graphics mode.
#[derive(Clone, Copy, Debug, PartialEq, Eq)]
pub struct GraphicsModeSettings {
    pub cursor: Coord,
    pub color: u16,
}

/// The tracked state of one RA8875: the panel size, the addressing mode the
/// chip is in, and the cursor and colour settings of each mode. Only the
/// settings of the active mode describe the chip.
#[derive(Clone, Copy, Debug, PartialEq, Eq)]
pub struct RA8875 {
    pub dims: (u32, u32),
    pub text_settings: TextModeSettings,
    pub gfx_settings: GraphicsModeSettings,
    pub mode: Mode,
}

/// The register steps of one operation, and the tracked state once all of them
/// have been carried out. The state is to be taken over only then.
#[derive(Debug)]
pub struct Job {
    pub ops: Vec<RegOp>,
    pub next: RA8875,
}

/// The trigger byte of a rectangle: start, square, and fill if asked.
pub open spec fn rect_trigger(fill: bool) -> u8 {
    let outline = Dcr::LINESQUTRI_START.bits() | Dcr::DRAWSQUARE.bits();
    if fill {
        outline | Dcr::FILL.bits()
    } else {
        outline
    }
}

/// The trigger byte of a triangle.
pub open spec fn triangle_trigger(fill: bool) -> u8 {
    let outline = Dcr::LINESQUTRI_START.bits() | Dcr::DRAWTRIANGLE.bits();
    if fill {
        outline | Dcr::FILL.bits()
    } else {
        outline
    }
}

/// The trigger byte of a circle.
pub open spec fn circle_trigger(fill: bool) -> u8 {
    if fill {
        Dcr::CIRCLE_START.bits() | Dcr::FILL.bits()
    } else {
        Dcr::CIRCLE_START.bits()
    }
}

/// The trigger byte of a whole ellipse.
pub open spec fn ellipse_trigger(fill: bool) -> u8 {
    if fill {
        DrawEllipseCR::DRAWSTART.bits() | DrawEllipseCR::FILL.bits()
    } else {
        DrawEllipseCR::DRAWSTART.bits()
    }
}

/// The trigger byte of one quarter of an ellipse: the ellipse trigger with the
/// curve select bit and the two-bit quarter number.
pub open spec fn curve_trigger(fill: bool, part: u8) -> u8 {
    ellipse_trigger(fill) | DrawEllipseCR::ELLIPSE_CURVE_SEL.bits() | (part
        & DrawEllipseCR::EllipseCurvePart.bits())
}

/// Starting a hardware drawing operation with `value` in its trigger register
/// `reg`, then polling `reg` until the busy bits `mask` clear.
pub open spec fn trigger_ops(reg: u8, value: u8, mask: u8) -> Seq<RegOp> {
    seq![RegOp::Write { reg, value }, RegOp::WaitClear { reg, mask }]
}

/// Writing one pixel at the write cursor.
pub open spec fn single_pixel_ops(color: u16) -> Seq<RegOp> {
    seq![
        RegOp::Select { reg: regs::MRWC },
        RegOp::StreamStart,
        RegOp::Pixels { color, count: 1 },
        RegOp::StreamEnd,
    ]
}

/// The enlargement bits of the font options register for a text scale.
pub open spec fn scale_pattern(scale: u8) -> u8 {
    if scale == 0 {
        0b0000
    } else if scale == 1 {
        0b0101
    } else if scale == 2 {
        0b1010
    } else {
        0b1111
    }
}

/// Whether an interrupt status byte reports a touch event.
pub open spec fn spec_touch_pending(status: u8) -> bool {
    status & Intc2::TP.bits() != 0
}

/// Decides from the interrupt status byte whether a touch event is pending.
pub fn touch_pending(status: u8) -> (r: bool)
    ensures
        r == spec_touch_pending(status),
{
    status & Intc2::TP.bits() != 0
}

/// Rebuilds the two 10-bit touch coordinates from the x high byte, the y high
/// byte, and the byte holding both low parts (x in bits 0-1, y in bits 2-3).
pub fn touch_point(x_high: u8, y_high: u8, xy_low: u8) -> (r: Coord)
    ensures
        r.0 == x_high * 4 + xy_low % 4,
        r.1 == y_high * 4 + (xy_low / 4) % 4,
{
    let xh = x_high as u16;
    let yh = y_high as u16;
    let low = xy_low as u16;
    let tx: u16 = (xh << 2u16) | (low & 0x03);
    let ty: u16 = (yh << 2u16) | ((low >> 2u16) & 0x03);
    assert(xh < 256 && low < 256 ==> (xh << 2u16) | (low & 0x03) == xh * 4 + low % 4)
        by (bit_vector);
    assert(yh < 256 && low < 256 ==> (yh << 2u16) | ((low >> 2u16) & 0x03) == yh * 4 + (low
        / 4) % 4) by (bit_vector);
    (tx as i16, ty as i16)
}

/// A panel point given as 32-bit coordinates, cut to the 16 bits the chip takes.
pub fn to_coord(p: (i32, i32)) -> (r: Coord)
    ensures
        r == (p.0 as i16, p.1 as i16),
{
    (p.0 as i16, p.1 as i16)
}

impl RA8875 {
    /// A driver for a panel of `dims` (width, height), in graphics mode, with
    /// both cursors at the origin, black colours and text scale 1.
    pub fn new(dims: (u32, u32)) -> (r: RA8875)
        ensures
            r.dims == dims,
            r.mode == Mode::Graphics,
            r.text_settings == (TextModeSettings {
                cursor: (0, 0),
                fg_color: 0,
                bg_color: None,
                text_scale: 1,
                transparency: false,
            }),
            r.gfx_settings == (GraphicsModeSettings { cursor: (0, 0), color: 0 }),
    {
        RA8875 {
            dims,
            text_settings: TextModeSettings {
                cursor: (0, 0),
                fg_color: 0,
                bg_color: None,
                text_scale: 1,
                transparency: false,
            },
            gfx_settings: GraphicsModeSettings { cursor: (0, 0), color: 0 },
            mode: Mode::Graphics,
        }
    }

    /// The panel size, width then height.
    pub fn size(&self) -> (r: (u32, u32))
        ensures
            r == self.dims,
    {
        self.dims
    }

    /// Whether `(x, y)` lies on the panel.
    pub open spec fn spec_contains(self, x: i32, y: i32) -> bool {
        0 <= x < self.dims.0 && 0 <= y < self.dims.1
    }

    /// Decides whether `(x, y)` lies on the panel.
    pub fn contains(&self, x: i32, y: i32) -> (r: bool)
        ensures
            r == self.spec_contains(x, y),
    {
        x >= 0 && y >= 0 && (x as u32) < self.dims.0 && (y as u32) < self.dims.1
    }

    /// A job of register writes only, leaving the state as it is.
    pub open spec fn writes_only(self, job: Job, ops: Seq<RegOp>) -> bool {
        job.ops@ == ops && job.next == self
    }

    /// Reads the self-test register; the byte read is the result.
    pub fn self_check(&self) -> (r: Job)
        ensures
            self.writes_only(r, seq![RegOp::Read { reg: regs::SELF_TEST }]),
    {
        let mut ops: Vec<RegOp> = Vec::new();
        ops.push(RegOp::Read { reg: regs::SELF_TEST });
        assert(ops@ =~= seq![RegOp::Read { reg: regs::SELF_TEST }]);
        Job { ops, next: *self }
    }

    /// Sets up the PLL: input divider 1 with multiplier 10, output divider 4.
    pub fn set_up_pll(&self) -> (r: Job)
        ensures
            self.writes_only(
                r,
                seq![
                    RegOp::Write { reg: regs::PLLC1, value: (PllC1::Div1.bits() + 10) as u8 },
                    RegOp::Write { reg: regs::PLLC2, value: PllC2::Div4.bits() },
                ],
            ),
    {
        let mut ops: Vec<RegOp> = Vec::new();
        ops.push(RegOp::Write { reg: regs::PLLC1, value: PllC1::Div1.bits() + 10 });
        ops.push(RegOp::Write { reg: regs::PLLC2, value: PllC2::Div4.bits() });
        assert(ops@ =~= seq![
            RegOp::Write { reg: regs::PLLC1, value: (PllC1::Div1.bits() + 10) as u8 },
            RegOp::Write { reg: regs::PLLC2, value: PllC2::Div4.bits() },
        ]);
        Job { ops, next: *self }
    }

    /// Programs the timing generator for the panel size. A size other than
    /// 480×272 or 800×480 is refused before anything is written.
    pub fn init(&self) -> (r: Result<Job, DriverError>)
        ensures
            supported(self.dims.0, self.dims.1) ==> (r matches Ok(job) && self.writes_only(
                job,
                init_writes(self.dims.0, self.dims.1),
            )),
            !supported(self.dims.0, self.dims.1) ==> r matches Err(
                DriverError::UnsupportedConfiguration,
            ),
    {
        match init_sequence(self.dims.0, self.dims.1) {
            Ok(ops) => Ok(Job { ops, next: *self }),
            Err(e) => Err(e),
        }
    }

    /// The power register value that turns the display on or off.
    pub open spec fn power_value(on: bool) -> u8 {
        if on {
            Pwrr::Normal.bits() | Pwrr::DispOn.bits()
        } else {
            Pwrr::Normal.bits()
        }
    }

    /// Turns the display on or off.
    pub fn display_on(&self, on: bool) -> (r: Job)
        ensures
            self.writes_only(r, seq![RegOp::Write { reg: regs::PWRR, value: Self::power_value(on) }]),
    {
        let value = if on {
            Pwrr::Normal.bits() | Pwrr::DispOn.bits()
        } else {
            Pwrr::Normal.bits()
        };
        let mut ops: Vec<RegOp> = Vec::new();
        ops.push(RegOp::Write { reg: regs::PWRR, value });
        assert(ops@ =~= seq![RegOp::Write { reg: regs::PWRR, value: Self::power_value(on) }]);
        Job { ops, next: *self }
    }

    /// Drives the extra general purpose output high or low.
    pub fn gpiox(&self, on: bool) -> (r: Job)
        ensures
            self.writes_only(
                r,
                seq![RegOp::Write { reg: regs::GPIOX, value: if on { 1u8 } else { 0u8 } }],
            ),
    {
        let mut ops: Vec<RegOp> = Vec::new();
        ops.push(RegOp::Write { reg: regs::GPIOX, value: if on { 1 } else { 0 } });
        assert(ops@ =~= seq![RegOp::Write { reg: regs::GPIOX, value: if on { 1u8 } else { 0u8 } }]);
        Job { ops, next: *self }
    }

    /// Sets the duty cycle of PWM1.
    pub fn pwm1_out(&self, pulse: u8) -> (r: Job)
        ensures
            self.writes_only(r, seq![RegOp::Write { reg: regs::P1DCR, value: pulse }]),
    {
        let mut ops: Vec<RegOp> = Vec::new();
        ops.push(RegOp::Write { reg: regs::P1DCR, value: pulse });
        assert(ops@ =~= seq![RegOp::Write { reg: regs::P1DCR, value: pulse }]);
        Job { ops, next: *self }
    }

    /// A PWM control value: the enable bit if asked, and the low four bits of
    /// `clock` as the clock divider.
    pub open spec fn pwm_control(enable: u8, on: bool, clock: u8) -> u8 {
        if on {
            enable | (clock & 0xF)
        } else {
            clock & 0xF
        }
    }

    /// Enables or disables PWM1 with clock divider `clock` (low four bits).
    pub fn pwm1_config(&self, on: bool, clock: u8) -> (r: Job)
        ensures
            self.writes_only(
                r,
                seq![RegOp::Write { reg: regs::P1CR, value: Self::pwm_control(P1cr::Enable.bits(), on, clock) }],
            ),
    {
        let value = if on {
            P1cr::Enable.bits() | (clock & 0xF)
        } else {
            clock & 0xF
        };
        let mut ops: Vec<RegOp> = Vec::new();
        ops.push(RegOp::Write { reg: regs::P1CR, value });
        assert(ops@ =~= seq![RegOp::Write { reg: regs::P1CR, value: Self::pwm_control(P1cr::Enable.bits(), on, clock) }]);
        Job { ops, next: *self }
    }

    /// Sets the duty cycle of PWM2.
    pub fn pwm2_out(&self, pulse: u8) -> (r: Job)
        ensures
            self.writes_only(r, seq![RegOp::Write { reg: regs::P2DCR, value: pulse }]),
    {
        let mut ops: Vec<RegOp> = Vec::new();
        ops.push(RegOp::Write { reg: regs::P2DCR, value: pulse });
        assert(ops@ =~= seq![RegOp::Write { reg: regs::P2DCR, value: pulse }]);
        Job { ops, next: *self }
    }

    /// Enables or disables PWM2 with clock divider `clock` (low four bits).
    pub fn pwm2_config(&self, on: bool, clock: u8) -> (r: Job)
        ensures
            self.writes_only(
                r,
                seq![RegOp::Write { reg: regs::P2CR, value: Self::pwm_control(P2cr::Enable.bits(), on, clock) }],
            ),
    {
        let value = if on {
            P2cr::Enable.bits() | (clock & 0xF)
        } else {
            clock & 0xF
        };
        let mut ops: Vec<RegOp> = Vec::new();
        ops.push(RegOp::Write { reg: regs::P2CR, value });
        assert(ops@ =~= seq![RegOp::Write { reg: regs::P2CR, value: Self::pwm_control(P2cr::Enable.bits(), on, clock) }]);
        Job { ops, next: *self }
    }
    /// The steps of entering text mode: none if the chip is in it already;
    /// else set the text bit of the memory write control register, select the
    /// internal ROM font (keeping only attribute bits 7 and 5 of font control
    /// register 0), and clear the serial font ROM setting.
    pub open spec fn text_mode_ops(self) -> Seq<RegOp> {
        if self.mode == Mode::Text {
            seq![]
        } else {
            seq![
                RegOp::Modify { reg: regs::MWCR0, keep: 0xFF, set: Mwcr0::TxtMode.bits(), reselect: false },
                RegOp::Modify { reg: regs::ROM_FONT_SELECT, keep: 0xA0, set: 0, reselect: false },
                RegOp::Write { reg: regs::SERIAL_FONT_ROM, value: 0 },
            ]
        }
    }

    pub open spec fn text_mode_next(self) -> RA8875 {
        RA8875 { mode: Mode::Text, ..self }
    }

    /// Enters text mode, with the internal ROM font.
    pub fn text_mode(&self) -> (r: Job)
        ensures
            r.ops@ == self.text_mode_ops(),
            r.next == self.text_mode_next(),
    {
        let mut ops: Vec<RegOp> = Vec::new();
        match self.mode {
            Mode::Text => {},
            Mode::Graphics => {
                ops.push(
                    RegOp::Modify { reg: regs::MWCR0, keep: 0xFF, set: Mwcr0::TxtMode.bits(), reselect: false },
                );
                ops.push(RegOp::Modify { reg: regs::ROM_FONT_SELECT, keep: 0xA0, set: 0, reselect: false });
                ops.push(RegOp::Write { reg: regs::SERIAL_FONT_ROM, value: 0 });
            },
        }
        assert(ops@ =~= self.text_mode_ops());
        Job { ops, next: RA8875 { mode: Mode::Text, ..*self } }
    }

    /// The steps of entering graphics mode: none if the chip is in it already;
    /// else clear the text bit of the memory write control register.
    pub open spec fn graphics_mode_ops(self) -> Seq<RegOp> {
        if self.mode == Mode::Graphics {
            seq![]
        } else {
            seq![RegOp::Modify { reg: regs::MWCR0, keep: !Mwcr0::TxtMode.bits(), set: 0, reselect: false }]
        }
    }

    pub open spec fn graphics_mode_next(self) -> RA8875 {
        RA8875 { mode: Mode::Graphics, ..self }
    }

    /// Enters graphics mode.
    pub fn graphics_mode(&self) -> (r: Job)
        ensures
            r.ops@ == self.graphics_mode_ops(),
            r.next == self.graphics_mode_next(),
    {
        let mut ops: Vec<RegOp> = Vec::new();
        match self.mode {
            Mode::Graphics => {},
            Mode::Text => {
                ops.push(
                    RegOp::Modify { reg: regs::MWCR0, keep: !Mwcr0::TxtMode.bits(), set: 0, reselect: false },
                );
            },
        }
        assert(ops@ =~= self.graphics_mode_ops());
        Job { ops, next: RA8875 { mode: Mode::Graphics, ..*self } }
    }

    /// Sets the enlargement bits of the font options register for `scale`
    /// (0 to 3; larger scales enlarge as 3 does), keeping its other bits.
    pub fn set_text_scale(&self, scale: u8) -> (r: Job)
        ensures
            r.ops@ == seq![
                RegOp::Modify { reg: regs::FONT_OPTIONS, keep: 0xF0, set: scale_pattern(scale), reselect: false },
            ],
            r.next == (RA8875 {
                text_settings: TextModeSettings { text_scale: scale, ..self.text_settings },
                ..*self
            }),
    {
        let pattern: u8 = if scale == 0 {
            0b0000
        } else if scale == 1 {
            0b0101
        } else if scale == 2 {
            0b1010
        } else {
            0b1111
        };
        let mut ops: Vec<RegOp> = Vec::new();
        ops.push(RegOp::Modify { reg: regs::FONT_OPTIONS, keep: 0xF0, set: pattern, reselect: false });
        assert(ops@ =~= seq![
            RegOp::Modify { reg: regs::FONT_OPTIONS, keep: 0xF0, set: scale_pattern(scale), reselect: false },
        ]);
        Job {
            ops,
            next: RA8875 {
                text_settings: TextModeSettings { text_scale: scale, ..self.text_settings },
                ..*self
            },
        }
    }

    /// The first of the four cursor registers of the current mode.
    pub open spec fn cursor_base(self) -> u8 {
        match self.mode {
            Mode::Graphics => regs::CURH0,
            Mode::Text => regs::TEXT_X0,
        }
    }

    /// Moving the cursor of the current mode to `p`.
    pub open spec fn cursor_ops(self, p: Coord) -> Seq<RegOp> {
        point_writes(self.cursor_base(), p)
    }

    pub open spec fn cursor_next(self, p: Coord) -> RA8875 {
        match self.mode {
            Mode::Graphics => RA8875 {
                gfx_settings: GraphicsModeSettings { cursor: p, ..self.gfx_settings },
                ..self
            },
            Mode::Text => RA8875 {
                text_settings: TextModeSettings { cursor: p, ..self.text_settings },
                ..self
            },
        }
    }

    pub(crate) fn push_cursor(&self, ops: &mut Vec<RegOp>, p: Coord)
        ensures
            final(ops)@ == old(ops)@ + self.cursor_ops(p),
    {
        match self.mode {
            Mode::Graphics => push_point(ops, regs::CURH0, p),
            Mode::Text => push_point(ops, regs::TEXT_X0, p),
        }
    }

    pub(crate) fn with_cursor(&self, p: Coord) -> (r: RA8875)
        ensures
            r == self.cursor_next(p),
    {
        match self.mode {
            Mode::Graphics => RA8875 {
                gfx_settings: GraphicsModeSettings { cursor: p, ..self.gfx_settings },
                ..*self
            },
            Mode::Text => RA8875 {
                text_settings: TextModeSettings { cursor: p, ..self.text_settings },
                ..*self
            },
        }
    }

    /// Moves the cursor of the current mode: the graphics write cursor or the
    /// text cursor.
    pub fn set_cursor(&self, new_position: Coord) -> (r: Job)
        ensures
            r.ops@ == self.cursor_ops(new_position),
            r.next == self.cursor_next(new_position),
    {
        let mut ops: Vec<RegOp> = Vec::new();
        self.push_cursor(&mut ops, new_position);
        assert(ops@ =~= self.cursor_ops(new_position));
        Job { ops, next: self.with_cursor(new_position) }
    }

    /// Setting the colours of the current mode. Both modes write the
    /// foreground colour. Text mode also writes the background colour and
    /// clears the transparency bit (bit 6) of the font options register, or,
    /// without a background colour, sets that bit.
    pub open spec fn colors_ops(self, fg_color: u16, bg_color: Option<u16>) -> Seq<RegOp> {
        match self.mode {
            Mode::Graphics => color_writes(regs::COLOR0, fg_color),
            Mode::Text => color_writes(regs::COLOR0, fg_color) + match bg_color {
                Some(c) => color_writes(regs::TEXT_BG0, c).push(
                    RegOp::Modify { reg: regs::FONT_OPTIONS, keep: 0xBF, set: 0, reselect: false },
                ),
                None => seq![RegOp::Modify { reg: regs::FONT_OPTIONS, keep: 0xFF, set: 0x40, reselect: false }],
            },
        }
    }

    /// Graphics mode keeps no record of its colours; text mode records both
    /// colours and whether the background is transparent.
    pub open spec fn colors_next(self, fg_color: u16, bg_color: Option<u16>) -> RA8875 {
        match self.mode {
            Mode::Graphics => self,
            Mode::Text => RA8875 {
                text_settings: TextModeSettings {
                    fg_color,
                    bg_color,
                    transparency: bg_color is None,
                    ..self.text_settings
                },
                ..self
            },
        }
    }

    fn push_colors(&self, ops: &mut Vec<RegOp>, fg_color: u16, bg_color: Option<u16>)
        ensures
            final(ops)@ == old(ops)@ + self.colors_ops(fg_color, bg_color),
    {
        push_color(ops, regs::COLOR0, fg_color);
        match self.mode {
            Mode::Graphics => {
                assert(ops@ =~= old(ops)@ + self.colors_ops(fg_color, bg_color));
            },
            Mode::Text => {
                match bg_color {
                    Some(c) => {
                        push_color(ops, regs::TEXT_BG0, c);
                        ops.push(RegOp::Modify { reg: regs::FONT_OPTIONS, keep: 0xBF, set: 0, reselect: false });
                    },
                    None => {
                        ops.push(RegOp::Modify { reg: regs::FONT_OPTIONS, keep: 0xFF, set: 0x40, reselect: false });
                    },
                }
                assert(ops@ =~= old(ops)@ + self.colors_ops(fg_color, bg_color));
            },
        }
    }

    fn with_colors(&self, fg_color: u16, bg_color: Option<u16>) -> (r: RA8875)
        ensures
            r == self.colors_next(fg_color, bg_color),
    {
        match self.mode {
            Mode::Graphics => *self,
            Mode::Text => RA8875 {
                text_settings: TextModeSettings {
                    fg_color,
                    bg_color,
                    transparency: bg_color.is_none(),
                    ..self.text_settings
                },
                ..*self
            },
        }
    }

    /// Sets the colours of the current mode; without a background colour, text
    /// is drawn on a transparent background.
    pub fn set_colors(&self, fg_color: u16, bg_color: Option<u16>) -> (r: Job)
        ensures
            r.ops@ == self.colors_ops(fg_color, bg_color),
            r.next == self.colors_next(fg_color, bg_color),
    {
        let mut ops: Vec<RegOp> = Vec::new();
        self.push_colors(&mut ops, fg_color, bg_color);
        assert(ops@ =~= self.colors_ops(fg_color, bg_color));
        Job { ops, next: self.with_colors(fg_color, bg_color) }
    }
}

} // verus!
