//! The primitive engine, the pixel streamer and the touch reader.
//!
//! Every shape follows one template: its geometry into coordinate registers,
//! the foreground colour, a trigger byte that starts the hardware, then a poll
//! of the trigger register until the busy bit clears.
use vstd::prelude::*;
use crate::cmds::{Dcr, DrawEllipseCR, Intc1, Intc2, Tpcr0, Tprc1};
use crate::driver::{
    circle_trigger, curve_trigger, ellipse_trigger, rect_trigger, single_pixel_ops,
    trigger_ops, triangle_trigger, Job, Mode, RA8875,
};
use crate::ops::{high_byte16, low_byte16, point_writes, push_point, Coord, RegOp};
use crate::regs;
use crate::transport::DriverError;

verus! {

/// The long and short axis of an ellipse, each as a low and a high byte.
pub open spec fn axis_writes(long_axis: u16, short_axis: u16) -> Seq<RegOp> {
    seq![
        RegOp::Write { reg: regs::ELLIPSE_LONG_A0, value: low_byte16(long_axis) },
        RegOp::Write { reg: regs::ELLIPSE_LONG_A1, value: high_byte16(long_axis) },
        RegOp::Write { reg: regs::ELLIPSE_SHORT_B0, value: low_byte16(short_axis) },
        RegOp::Write { reg: regs::ELLIPSE_SHORT_B1, value: high_byte16(short_axis) },
    ]
}

/// Writing `bytes` as text at the text cursor.
pub open spec fn text_ops(bytes: Seq<u8>) -> Seq<RegOp> {
    seq![RegOp::Select { reg: regs::MRWC }] + Seq::new(
        bytes.len(),
        |i: int| RegOp::Data { value: bytes[i] },
    )
}

/// The steps of enabling the touch panel: enabled in auto mode with debounce,
/// a 16384-clock sample wait and ADC clock divided by 32, and the touch
/// interrupt enabled on top of the interrupts already enabled.
pub open spec fn enable_touch_ops() -> Seq<RegOp> {
    seq![
        RegOp::Write {
            reg: regs::TPCR0,
            value: Tpcr0::ENABLE.bits() | Tpcr0::WAIT_16384CLK.bits() | Tpcr0::ADCCLK_DIV32.bits(),
        },
        RegOp::Write { reg: regs::TPCR1, value: Tprc1::AUTO.bits() | Tprc1::DEBOUNCE.bits() },
        RegOp::Modify { reg: regs::INTC1, keep: 0xFF, set: Intc1::TP.bits(), reselect: true },
    ]
}

/// Reading a touch: x high, y high, the shared low byte, then clearing the
/// touch interrupt flag.
pub open spec fn get_touch_ops() -> Seq<RegOp> {
    seq![
        RegOp::Read { reg: regs::TPXH },
        RegOp::Read { reg: regs::TPYH },
        RegOp::Read { reg: regs::TPXYL },
        RegOp::Write { reg: regs::INTC2, value: Intc2::TP.bits() },
    ]
}

/// Streaming `count` pixels of `color` at the write cursor.
pub open spec fn push_pixels_ops(count: u32, color: u16) -> Seq<RegOp> {
    seq![
        RegOp::Select { reg: regs::MRWC },
        RegOp::StreamStart,
        RegOp::Pixels { color, count },
        RegOp::StreamEnd,
    ]
}

/// The first pixel of row `row` of an area whose corner is `top_left`, cut to 16 bits.
pub open spec fn row_point(top_left: (i32, i32), row: int) -> Coord {
    (top_left.0 as i16, (top_left.1 + row) as i16)
}

/// How many pixels a contiguous fill of an area of `size` draws from
/// `len` colours: as many as both have.
pub open spec fn fill_count(size: (u32, u32), len: nat) -> nat {
    let area = size.0 * size.1;
    if area < len {
        area as nat
    } else {
        len
    }
}

impl RA8875 {
    /// The line from `start` to `end`.
    pub open spec fn line_ops(self, start: Coord, end: Coord, color: u16) -> Seq<RegOp> {
        point_writes(regs::SHAPE_START_X0, start) + point_writes(regs::SHAPE_END_X0, end)
            + self.colors_ops(color, None) + trigger_ops(
            regs::DCR,
            Dcr::LINESQUTRI_START.bits(),
            Dcr::LINESQUTRI_START.bits(),
        )
    }

    /// The rectangle with corners `top_left` and `bottom_right`.
    pub open spec fn rect_ops(self, top_left: Coord, bottom_right: Coord, color: u16, fill: bool) -> Seq<RegOp> {
        point_writes(regs::SHAPE_START_X0, top_left) + point_writes(regs::SHAPE_END_X0, bottom_right)
            + self.colors_ops(color, None) + trigger_ops(
            regs::DCR,
            rect_trigger(fill),
            Dcr::LINESQUTRI_START.bits(),
        )
    }

    /// The circle around `center`; the radius register takes the low byte of `radius`.
    pub open spec fn circle_ops(self, center: Coord, radius: i16, color: u16, fill: bool) -> Seq<RegOp> {
        point_writes(regs::CIRCLE_X0, center) + seq![RegOp::Write { reg: regs::CIRCLE_R, value: radius as u8 }]
            + self.colors_ops(color, None) + trigger_ops(
            regs::DCR,
            circle_trigger(fill),
            Dcr::CIRCLE_START.bits(),
        )
    }

    /// The triangle with vertices `p0`, `p1`, `p2`.
    pub open spec fn triangle_ops(self, p0: Coord, p1: Coord, p2: Coord, color: u16, fill: bool) -> Seq<RegOp> {
        point_writes(regs::SHAPE_START_X0, p0) + point_writes(regs::SHAPE_END_X0, p1)
            + point_writes(regs::TRIANGLE_P2_X0, p2) + self.colors_ops(color, None) + trigger_ops(
            regs::DCR,
            triangle_trigger(fill),
            Dcr::LINESQUTRI_START.bits(),
        )
    }

    /// An ellipse, or a quarter of one, around `center`, started by `trigger`.
    pub open spec fn ellipse_ops(
        self,
        center: Coord,
        long_axis: u16,
        short_axis: u16,
        color: u16,
        trigger: u8,
    ) -> Seq<RegOp> {
        point_writes(regs::ELLIPSE_CENTER_X0, center) + axis_writes(long_axis, short_axis)
            + self.colors_ops(color, None) + trigger_ops(
            regs::ELLIPSE_CR,
            trigger,
            DrawEllipseCR::DRAWSTART.bits(),
        )
    }

    /// Appends the foreground colour, the trigger and the completion poll.
    fn push_finish(&self, ops: &mut Vec<RegOp>, color: u16, reg: u8, value: u8, mask: u8)
        ensures
            final(ops)@ == old(ops)@ + self.colors_ops(color, None) + trigger_ops(reg, value, mask),
    {
        let ghost start = ops@;
        let j = self.set_colors(color, None);
        let mut k: usize = 0;
        while k < j.ops.len()
            invariant
                k <= j.ops@.len(),
                ops@ == start + j.ops@.subrange(0, k as int),
            decreases j.ops@.len() - k,
        {
            ops.push(j.ops[k]);
            k = k + 1;
            assert(ops@ =~= start + j.ops@.subrange(0, k as int));
        }
        ops.push(RegOp::Write { reg, value });
        ops.push(RegOp::WaitClear { reg, mask });
        assert(j.ops@.subrange(0, k as int) =~= j.ops@);
        assert(ops@ =~= start + self.colors_ops(color, None) + trigger_ops(reg, value, mask));
    }

    /// Draws a line from `start` to `end`.
    pub fn draw_line(&self, start: Coord, end: Coord, color: u16) -> (r: Job)
        ensures
            r.ops@ == self.line_ops(start, end, color),
            r.next == self.colors_next(color, None),
    {
        let mut ops: Vec<RegOp> = Vec::new();
        push_point(&mut ops, regs::SHAPE_START_X0, start);
        push_point(&mut ops, regs::SHAPE_END_X0, end);
        self.push_finish(&mut ops, color, regs::DCR, Dcr::LINESQUTRI_START.bits(), Dcr::LINESQUTRI_START.bits());
        assert(ops@ =~= self.line_ops(start, end, color));
        Job { ops, next: self.set_colors(color, None).next }
    }

    /// Draws a vertical line of `height` from `start`.
    pub fn draw_vline(&self, start: Coord, height: i16, color: u16) -> (r: Job)
        requires
            i16::MIN <= start.1 + height <= i16::MAX,
        ensures
            r.ops@ == self.line_ops(start, (start.0, (start.1 + height) as i16), color),
            r.next == self.colors_next(color, None),
    {
        self.draw_line(start, (start.0, start.1 + height), color)
    }

    /// Draws a horizontal line of `width` from `start`.
    pub fn draw_hline(&self, start: Coord, width: i16, color: u16) -> (r: Job)
        requires
            i16::MIN <= start.0 + width <= i16::MAX,
        ensures
            r.ops@ == self.line_ops(start, ((start.0 + width) as i16, start.1), color),
            r.next == self.colors_next(color, None),
    {
        self.draw_line(start, (start.0 + width, start.1), color)
    }

    /// Draws a rectangle, outlined or filled.
    pub fn draw_rect(&self, top_left: Coord, bottom_right: Coord, color: u16, fill: bool) -> (r: Job)
        ensures
            r.ops@ == self.rect_ops(top_left, bottom_right, color, fill),
            r.next == self.colors_next(color, None),
    {
        let mut ops: Vec<RegOp> = Vec::new();
        push_point(&mut ops, regs::SHAPE_START_X0, top_left);
        push_point(&mut ops, regs::SHAPE_END_X0, bottom_right);
        let outline = Dcr::LINESQUTRI_START.bits() | Dcr::DRAWSQUARE.bits();
        let trigger = if fill {
            outline | Dcr::FILL.bits()
        } else {
            outline
        };
        self.push_finish(&mut ops, color, regs::DCR, trigger, Dcr::LINESQUTRI_START.bits());
        assert(ops@ =~= self.rect_ops(top_left, bottom_right, color, fill));
        Job { ops, next: self.set_colors(color, None).next }
    }

    /// Fills the whole panel: the filled rectangle from the origin to the
    /// panel's (width, height).
    pub fn fill_screen(&self, color: u16) -> (r: Job)
        ensures
            r.ops@ == self.rect_ops((0, 0), (self.dims.0 as i16, self.dims.1 as i16), color, true),
            r.next == self.colors_next(color, None),
    {
        let (width, height) = self.dims;
        self.draw_rect((0, 0), (width as i16, height as i16), color, true)
    }

    /// Draws a circle, outlined or filled.
    pub fn draw_circle(&self, center: Coord, radius: i16, color: u16, fill: bool) -> (r: Job)
        ensures
            r.ops@ == self.circle_ops(center, radius, color, fill),
            r.next == self.colors_next(color, None),
    {
        let mut ops: Vec<RegOp> = Vec::new();
        push_point(&mut ops, regs::CIRCLE_X0, center);
        ops.push(RegOp::Write { reg: regs::CIRCLE_R, value: radius as u8 });
        let trigger = if fill {
            Dcr::CIRCLE_START.bits() | Dcr::FILL.bits()
        } else {
            Dcr::CIRCLE_START.bits()
        };
        self.push_finish(&mut ops, color, regs::DCR, trigger, Dcr::CIRCLE_START.bits());
        assert(ops@ =~= self.circle_ops(center, radius, color, fill));
        Job { ops, next: self.set_colors(color, None).next }
    }

    /// Draws a triangle, outlined or filled.
    pub fn draw_triangle(&self, p0: Coord, p1: Coord, p2: Coord, color: u16, fill: bool) -> (r: Job)
        ensures
            r.ops@ == self.triangle_ops(p0, p1, p2, color, fill),
            r.next == self.colors_next(color, None),
    {
        let mut ops: Vec<RegOp> = Vec::new();
        push_point(&mut ops, regs::SHAPE_START_X0, p0);
        push_point(&mut ops, regs::SHAPE_END_X0, p1);
        push_point(&mut ops, regs::TRIANGLE_P2_X0, p2);
        let outline = Dcr::LINESQUTRI_START.bits() | Dcr::DRAWTRIANGLE.bits();
        let trigger = if fill {
            outline | Dcr::FILL.bits()
        } else {
            outline
        };
        self.push_finish(&mut ops, color, regs::DCR, trigger, Dcr::LINESQUTRI_START.bits());
        assert(ops@ =~= self.triangle_ops(p0, p1, p2, color, fill));
        Job { ops, next: self.set_colors(color, None).next }
    }

    fn push_ellipse(&self, ops: &mut Vec<RegOp>, center: Coord, long_axis: u16, short_axis: u16, color: u16, trigger: u8)
        ensures
            final(ops)@ == old(ops)@ + self.ellipse_ops(center, long_axis, short_axis, color, trigger),
    {
        let ghost start = ops@;
        push_point(ops, regs::ELLIPSE_CENTER_X0, center);
        ops.push(RegOp::Write { reg: regs::ELLIPSE_LONG_A0, value: long_axis as u8 });
        ops.push(RegOp::Write { reg: regs::ELLIPSE_LONG_A1, value: (long_axis >> 8) as u8 });
        ops.push(RegOp::Write { reg: regs::ELLIPSE_SHORT_B0, value: short_axis as u8 });
        ops.push(RegOp::Write { reg: regs::ELLIPSE_SHORT_B1, value: (short_axis >> 8) as u8 });
        self.push_finish(ops, color, regs::ELLIPSE_CR, trigger, DrawEllipseCR::DRAWSTART.bits());
        assert(ops@ =~= start + self.ellipse_ops(center, long_axis, short_axis, color, trigger));
    }

    /// Draws an ellipse, outlined or filled.
    pub fn draw_ellipse(&self, center: Coord, long_axis: u16, short_axis: u16, color: u16, fill: bool) -> (r: Job)
        ensures
            r.ops@ == self.ellipse_ops(center, long_axis, short_axis, color, ellipse_trigger(fill)),
            r.next == self.colors_next(color, None),
    {
        let mut ops: Vec<RegOp> = Vec::new();
        let trigger = if fill {
            DrawEllipseCR::DRAWSTART.bits() | DrawEllipseCR::FILL.bits()
        } else {
            DrawEllipseCR::DRAWSTART.bits()
        };
        self.push_ellipse(&mut ops, center, long_axis, short_axis, color, trigger);
        assert(ops@ =~= self.ellipse_ops(center, long_axis, short_axis, color, ellipse_trigger(fill)));
        Job { ops, next: self.set_colors(color, None).next }
    }

    /// Draws one quarter of an ellipse, outlined or filled; `curve_part`
    /// (its low two bits) picks the quarter.
    pub fn draw_curve(
        &self,
        center: Coord,
        long_axis: u16,
        short_axis: u16,
        curve_part: u8,
        color: u16,
        fill: bool,
    ) -> (r: Job)
        ensures
            r.ops@ == self.ellipse_ops(center, long_axis, short_axis, color, curve_trigger(fill, curve_part)),
            r.next == self.colors_next(color, None),
    {
        let mut ops: Vec<RegOp> = Vec::new();
        let whole = if fill {
            DrawEllipseCR::DRAWSTART.bits() | DrawEllipseCR::FILL.bits()
        } else {
            DrawEllipseCR::DRAWSTART.bits()
        };
        let trigger = whole | DrawEllipseCR::ELLIPSE_CURVE_SEL.bits() | (curve_part
            & DrawEllipseCR::EllipseCurvePart.bits());
        self.push_ellipse(&mut ops, center, long_axis, short_axis, color, trigger);
        assert(ops@ =~= self.ellipse_ops(center, long_axis, short_axis, color, curve_trigger(fill, curve_part)));
        Job { ops, next: self.set_colors(color, None).next }
    }

    /// Draws one pixel of `color` at `coord`: moves the cursor there and
    /// writes the pixel into display memory.
    pub fn draw_point(&self, coord: Coord, color: u16) -> (r: Job)
        ensures
            r.ops@ == self.cursor_ops(coord) + single_pixel_ops(color),
            r.next == self.cursor_next(coord),
    {
        let j = self.set_cursor(coord);
        let mut ops = j.ops;
        ops.push(RegOp::Select { reg: regs::MRWC });
        ops.push(RegOp::StreamStart);
        ops.push(RegOp::Pixels { color, count: 1 });
        ops.push(RegOp::StreamEnd);
        assert(ops@ =~= self.cursor_ops(coord) + single_pixel_ops(color));
        Job { ops, next: j.next }
    }

    /// Draws one pixel given in 32-bit coordinates if it lies on the panel;
    /// a pixel off the panel takes no step.
    pub fn draw_pixel(&self, x: i32, y: i32, color: u16) -> (r: Job)
        ensures
            self.spec_contains(x, y) ==> r.ops@ == self.cursor_ops((x as i16, y as i16))
                + single_pixel_ops(color) && r.next == self.cursor_next((x as i16, y as i16)),
            !self.spec_contains(x, y) ==> self.writes_only(r, seq![]),
    {
        if self.contains(x, y) {
            self.draw_point(crate::driver::to_coord((x, y)), color)
        } else {
            let ops: Vec<RegOp> = Vec::new();
            assert(ops@ =~= seq![]);
            Job { ops, next: *self }
        }
    }

    /// Streams `num_pixels` pixels of `color` from the write cursor on, with
    /// one memory write command for the whole run.
    pub fn push_pixels(&self, num_pixels: u32, color: u16) -> (r: Job)
        ensures
            self.writes_only(r, push_pixels_ops(num_pixels, color)),
    {
        let mut ops: Vec<RegOp> = Vec::new();
        ops.push(RegOp::Select { reg: regs::MRWC });
        ops.push(RegOp::StreamStart);
        ops.push(RegOp::Pixels { color, count: num_pixels });
        ops.push(RegOp::StreamEnd);
        assert(ops@ =~= push_pixels_ops(num_pixels, color));
        Job { ops, next: *self }
    }

    /// Fills the area with corner `top_left` and `size` (width, height): the
    /// filled rectangle drawn from its bottom-right pixel to `top_left`. An
    /// empty area takes no step.
    pub fn fill_solid(&self, top_left: (i32, i32), size: (u32, u32), color: u16) -> (r: Job)
        ensures
            size.0 > 0 && size.1 > 0 ==> r.ops@ == self.rect_ops(
                (((top_left.0 + size.0 - 1) as i16), ((top_left.1 + size.1 - 1) as i16)),
                (top_left.0 as i16, top_left.1 as i16),
                color,
                true,
            ) && r.next == self.colors_next(color, None),
            !(size.0 > 0 && size.1 > 0) ==> self.writes_only(r, seq![]),
    {
        if size.0 > 0 && size.1 > 0 {
            let right = (top_left.0 as i64 + size.0 as i64 - 1) as i16;
            let bottom = (top_left.1 as i64 + size.1 as i64 - 1) as i16;
            self.draw_rect((right, bottom), crate::driver::to_coord(top_left), color, true)
        } else {
            let ops: Vec<RegOp> = Vec::new();
            assert(ops@ =~= seq![]);
            Job { ops, next: *self }
        }
    }

    /// Writes `bytes` as text at the text cursor. Only text mode takes text:
    /// in graphics mode the call is refused before any step.
    pub fn write_text(&self, bytes: &[u8]) -> (r: Result<Job, DriverError>)
        ensures
            self.mode == Mode::Graphics ==> r matches Err(DriverError::InvalidModeOperation),
            self.mode == Mode::Text ==> (r matches Ok(job) && self.writes_only(job, text_ops(bytes@))),
    {
        match self.mode {
            Mode::Graphics => Err(DriverError::InvalidModeOperation),
            Mode::Text => {
                let mut ops: Vec<RegOp> = Vec::new();
                ops.push(RegOp::Select { reg: regs::MRWC });
                let mut i: usize = 0;
                while i < bytes.len()
                    invariant
                        i <= bytes@.len(),
                        ops@ == seq![RegOp::Select { reg: regs::MRWC }] + Seq::new(
                            i as nat,
                            |k: int| RegOp::Data { value: bytes@[k] },
                        ),
                    decreases bytes@.len() - i,
                {
                    ops.push(RegOp::Data { value: bytes[i] });
                    i = i + 1;
                    assert(ops@ =~= seq![RegOp::Select { reg: regs::MRWC }] + Seq::new(
                        i as nat,
                        |k: int| RegOp::Data { value: bytes@[k] },
                    ));
                }
                assert(ops@ =~= text_ops(bytes@));
                Ok(Job { ops, next: *self })
            },
        }
    }

    /// Enables the touch panel in auto mode, and the touch interrupt.
    pub fn enable_touch(&self) -> (r: Job)
        ensures
            self.writes_only(r, enable_touch_ops()),
    {
        let mut ops: Vec<RegOp> = Vec::new();
        ops.push(
            RegOp::Write {
                reg: regs::TPCR0,
                value: Tpcr0::ENABLE.bits() | Tpcr0::WAIT_16384CLK.bits() | Tpcr0::ADCCLK_DIV32.bits(),
            },
        );
        ops.push(RegOp::Write { reg: regs::TPCR1, value: Tprc1::AUTO.bits() | Tprc1::DEBOUNCE.bits() });
        ops.push(RegOp::Modify { reg: regs::INTC1, keep: 0xFF, set: Intc1::TP.bits(), reselect: true });
        assert(ops@ =~= enable_touch_ops());
        Job { ops, next: *self }
    }

    /// Reads the interrupt flags; `touch_pending` on the byte read tells
    /// whether the panel was touched.
    pub fn touched(&self) -> (r: Job)
        ensures
            self.writes_only(r, seq![RegOp::Read { reg: regs::INTC2 }]),
    {
        let mut ops: Vec<RegOp> = Vec::new();
        ops.push(RegOp::Read { reg: regs::INTC2 });
        assert(ops@ =~= seq![RegOp::Read { reg: regs::INTC2 }]);
        Job { ops, next: *self }
    }

    /// Reads the touch coordinates and clears the touch interrupt;
    /// `touch_point` on the three bytes read gives the point.
    pub fn get_touch(&self) -> (r: Job)
        ensures
            self.writes_only(r, get_touch_ops()),
    {
        let mut ops: Vec<RegOp> = Vec::new();
        ops.push(RegOp::Read { reg: regs::TPXH });
        ops.push(RegOp::Read { reg: regs::TPYH });
        ops.push(RegOp::Read { reg: regs::TPXYL });
        ops.push(RegOp::Write { reg: regs::INTC2, value: Intc2::TP.bits() });
        assert(ops@ =~= get_touch_ops());
        Job { ops, next: *self }
    }
    /// Opening a row of a contiguous fill at `p`: close the stream, move the
    /// cursor, and open a new stream there.
    pub open spec fn row_start_ops(self, p: Coord) -> Seq<RegOp> {
        seq![RegOp::StreamEnd] + self.cursor_ops(p) + seq![
            RegOp::Select { reg: regs::MRWC },
            RegOp::StreamStart,
        ]
    }

    /// The steps for pixel `i` of a contiguous fill, rows `width` wide: a row
    /// start before the first pixel of each row, then the pixel.
    pub open spec fn fill_pixel_ops(self, top_left: (i32, i32), width: nat, colors: Seq<u16>, i: int) -> Seq<RegOp> {
        (if i % width as int == 0 {
            self.row_start_ops(row_point(top_left, i / width as int))
        } else {
            seq![]
        }) + seq![RegOp::Pixels { color: colors[i], count: 1 }]
    }

    /// The steps for the first `n` pixels of a contiguous fill.
    pub open spec fn fill_prefix_ops(self, top_left: (i32, i32), width: nat, colors: Seq<u16>, n: nat) -> Seq<RegOp>
        decreases n,
    {
        if n == 0 {
            seq![]
        } else {
            self.fill_prefix_ops(top_left, width, colors, (n - 1) as nat) + self.fill_pixel_ops(
                top_left,
                width,
                colors,
                n - 1,
            )
        }
    }

    /// A contiguous fill: its pixels in row-major order, then the stream closed.
    pub open spec fn fill_contiguous_ops(self, top_left: (i32, i32), size: (u32, u32), colors: Seq<u16>) -> Seq<RegOp> {
        let n = fill_count(size, colors.len());
        if n == 0 {
            seq![]
        } else {
            self.fill_prefix_ops(top_left, size.0 as nat, colors, n) + seq![RegOp::StreamEnd]
        }
    }

    /// After a contiguous fill, the cursor stands at the start of the last row drawn.
    pub open spec fn fill_contiguous_next(self, top_left: (i32, i32), size: (u32, u32), colors: Seq<u16>) -> RA8875 {
        let n = fill_count(size, colors.len());
        if n == 0 {
            self
        } else {
            self.cursor_next(row_point(top_left, (n - 1) / size.0 as int))
        }
    }

    /// Fills the area with corner `top_left` and `size` (width, height) with
    /// one colour per pixel, in row-major order, for as many pixels as both
    /// the area and `colors` have. The cursor is set once per row, and the
    /// pixels of a row go out in one stream.
    pub fn fill_contiguous(&self, top_left: (i32, i32), size: (u32, u32), colors: &[u16]) -> (r: Job)
        ensures
            r.ops@ == self.fill_contiguous_ops(top_left, size, colors@),
            r.next == self.fill_contiguous_next(top_left, size, colors@),
    {
        assert(size.0 * size.1 <= u64::MAX) by (nonlinear_arith)
            requires
                size.0 <= u32::MAX,
                size.1 <= u32::MAX,
        ;
        let total: u64 = size.0 as u64 * size.1 as u64;
        let n: usize = if (colors.len() as u64) < total {
            colors.len()
        } else {
            total as usize
        };
        let ghost w = size.0 as int;
        let ghost h = size.1 as int;
        assert(n > 0 ==> w > 0) by (nonlinear_arith)
            requires
                n <= w * h,
                w >= 0,
                h >= 0,
        ;
        let mut ops: Vec<RegOp> = Vec::new();
        let mut cur = *self;
        let mut i: usize = 0;
        while i < n
            invariant
                n == fill_count(size, colors@.len()),
                n <= colors@.len(),
                n <= w * h,
                w == size.0,
                h == size.1,
                n > 0 ==> w > 0,
                i <= n,
                ops@ == self.fill_prefix_ops(top_left, size.0 as nat, colors@, i as nat),
                i == 0 ==> cur == *self,
                i > 0 ==> cur == self.cursor_next(row_point(top_left, (i - 1) / w)),
            decreases n - i,
        {
            let width = size.0 as usize;
            let ghost before = ops@;
            if i % width == 0 {
                let row = i / width;
                assert(row < h) by (nonlinear_arith)
                    requires
                        i < n,
                        n <= w * h,
                        w > 0,
                        row == (i as int) / w,
                ;
                let p: Coord = (top_left.0 as i16, (top_left.1 as i64 + row as i64) as i16);
                ops.push(RegOp::StreamEnd);
                self.push_cursor(&mut ops, p);
                ops.push(RegOp::Select { reg: regs::MRWC });
                ops.push(RegOp::StreamStart);
                cur = self.with_cursor(p);
                assert(ops@ =~= before + self.row_start_ops(row_point(top_left, (i as int) / w)));
            } else {
                proof {
                    let q = (i as int) / w;
                    let rem = (i as int) % w;
                    vstd::arithmetic::div_mod::lemma_fundamental_div_mod(i as int, w);
                    vstd::arithmetic::div_mod::lemma_fundamental_div_mod_converse(
                        i - 1,
                        w,
                        q,
                        rem - 1,
                    );
                }
            }
            ops.push(RegOp::Pixels { color: colors[i], count: 1 });
            assert(ops@ =~= before + self.fill_pixel_ops(top_left, size.0 as nat, colors@, i as int));
            i = i + 1;
        }
        if n > 0 {
            ops.push(RegOp::StreamEnd);
        }
        assert(ops@ =~= self.fill_contiguous_ops(top_left, size, colors@));
        Job { ops, next: cur }
    }
}

} // verus!
