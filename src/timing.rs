//! Video timing: the panel resolutions the driver knows, and the register
//! values that program the chip's timing generator for each.
use vstd::prelude::*;
use crate::cmds::{Hndftr, Hpwr, Mclr, Pcsr, Sysr, Vpwr};
use crate::ops::RegOp;
use crate::regs;
use crate::transport::DriverError;

verus! {

/// The timing of one panel, as its datasheet gives it.
#[derive(Clone, Copy, Debug, PartialEq, Eq, Structural)]
pub struct Timing {
    pub pixclk: u8,
    pub hsync_start: u8,
    pub hsync_pw: u8,
    pub hsync_finetune: u8,
    pub hsync_nondisp: u8,
    pub vsync_pw: u8,
    pub vsync_nondisp: u16,
    pub vsync_start: u16,
}

/// The resolutions with a known timing: 480×272 and 800×480.
pub open spec fn supported(width: u32, height: u32) -> bool {
    (width == 480 && height == 272) || (width == 800 && height == 480)
}

/// The timing of a supported panel.
pub open spec fn spec_timing(width: u32, height: u32) -> Timing {
    if width == 480 && height == 272 {
        Timing {
            pixclk: Pcsr::Pdatl.bits() | Pcsr::Clk_4.bits(),
            hsync_nondisp: 10,
            hsync_start: 8,
            hsync_pw: 48,
            hsync_finetune: 0,
            vsync_nondisp: 3,
            vsync_start: 8,
            vsync_pw: 10,
        }
    } else {
        Timing {
            pixclk: Pcsr::Pdatl.bits() | Pcsr::Clk_2.bits(),
            hsync_nondisp: 26,
            hsync_start: 32,
            hsync_pw: 96,
            hsync_finetune: 0,
            vsync_nondisp: 32,
            vsync_start: 23,
            vsync_pw: 2,
        }
    }
}

/// Looks up the timing of a panel; any resolution but the two supported ones
/// is a configuration error.
pub fn timing_for(width: u32, height: u32) -> (r: Result<Timing, DriverError>)
    ensures
        supported(width, height) ==> r == Ok::<Timing, DriverError>(spec_timing(width, height)),
        !supported(width, height) ==> r == Err::<Timing, DriverError>(
            DriverError::UnsupportedConfiguration,
        ),
{
    if width == 480 && height == 272 {
        Ok(
            Timing {
                pixclk: Pcsr::Pdatl.bits() | Pcsr::Clk_4.bits(),
                hsync_nondisp: 10,
                hsync_start: 8,
                hsync_pw: 48,
                hsync_finetune: 0,
                vsync_nondisp: 3,
                vsync_start: 8,
                vsync_pw: 10,
            },
        )
    } else if width == 800 && height == 480 {
        Ok(
            Timing {
                pixclk: Pcsr::Pdatl.bits() | Pcsr::Clk_2.bits(),
                hsync_nondisp: 26,
                hsync_start: 32,
                hsync_pw: 96,
                hsync_finetune: 0,
                vsync_nondisp: 32,
                vsync_start: 23,
                vsync_pw: 2,
            },
        )
    } else {
        Err(DriverError::UnsupportedConfiguration)
    }
}

/// `Write` of `value` to `reg`.
pub open spec fn reg_write(reg: u8, value: u8) -> RegOp {
    RegOp::Write { reg, value }
}

/// The initialization sequence of a supported panel: colour depth, pixel
/// clock, the horizontal and vertical timing registers derived from its
/// `Timing`, an active window spanning the whole panel, and a memory clear.
pub open spec fn init_writes(width: u32, height: u32) -> Seq<RegOp> {
    let t = spec_timing(width, height);
    seq![
        reg_write(regs::SYSR, Sysr::BBP_16.bits()),
        reg_write(regs::PCSR, t.pixclk),
        reg_write(regs::HDWR, (width / 8 - 1) as u8),
        reg_write(regs::HNDFTR, (Hndftr::High.bits() + t.hsync_finetune) as u8),
        reg_write(regs::HNDR, ((t.hsync_nondisp - t.hsync_finetune - 2) / 8) as u8),
        reg_write(regs::HSTR, (t.hsync_start / 8 - 1) as u8),
        reg_write(regs::HPWR, (Hpwr::Low.bits() + t.hsync_pw / 8 - 1) as u8),
        reg_write(regs::VDHR0, ((height - 1) % 256) as u8),
        reg_write(regs::VDHR1, ((height - 1) / 256) as u8),
        reg_write(regs::VNDR0, (t.vsync_nondisp - 1) as u8),
        reg_write(regs::VNDR1, (t.vsync_nondisp / 256) as u8),
        reg_write(regs::VSTR0, (t.vsync_start - 1) as u8),
        reg_write(regs::VSTR1, (t.vsync_start / 256) as u8),
        reg_write(regs::VPWR, (Vpwr::Low.bits() + t.vsync_pw - 1) as u8),
        reg_write(regs::HSAW0, 0),
        reg_write(regs::HSAW1, 0),
        reg_write(regs::HEAW0, ((width - 1) % 256) as u8),
        reg_write(regs::HEAW1, ((width - 1) / 256) as u8),
        reg_write(regs::VSAW0, 0),
        reg_write(regs::VSAW1, 0),
        reg_write(regs::VEAW0, ((height - 1) % 256) as u8),
        reg_write(regs::VEAW1, ((height - 1) / 256) as u8),
        reg_write(regs::MCLR, Mclr::Start.bits()),
    ]
}

/// Builds the initialization sequence of a panel. An unsupported resolution
/// fails before any register is written: the error carries no sequence.
pub fn init_sequence(width: u32, height: u32) -> (r: Result<Vec<RegOp>, DriverError>)
    ensures
        supported(width, height) ==> (r matches Ok(ops) && ops@ == init_writes(width, height)),
        !supported(width, height) ==> r == Err::<Vec<RegOp>, DriverError>(
            DriverError::UnsupportedConfiguration,
        ),
{
    let t = match timing_for(width, height) {
        Ok(t) => t,
        Err(e) => return Err(e),
    };
    let mut ops: Vec<RegOp> = Vec::new();
    ops.push(RegOp::Write { reg: regs::SYSR, value: Sysr::BBP_16.bits() });
    ops.push(RegOp::Write { reg: regs::PCSR, value: t.pixclk });

    ops.push(RegOp::Write { reg: regs::HDWR, value: (width / 8 - 1) as u8 });
    ops.push(RegOp::Write { reg: regs::HNDFTR, value: Hndftr::High.bits() + t.hsync_finetune });
    ops.push(
        RegOp::Write { reg: regs::HNDR, value: (t.hsync_nondisp - t.hsync_finetune - 2) / 8 },
    );
    ops.push(RegOp::Write { reg: regs::HSTR, value: t.hsync_start / 8 - 1 });
    ops.push(RegOp::Write { reg: regs::HPWR, value: Hpwr::Low.bits() + t.hsync_pw / 8 - 1 });

    ops.push(RegOp::Write { reg: regs::VDHR0, value: ((height - 1) % 256) as u8 });
    ops.push(RegOp::Write { reg: regs::VDHR1, value: ((height - 1) / 256) as u8 });
    ops.push(RegOp::Write { reg: regs::VNDR0, value: (t.vsync_nondisp - 1) as u8 });
    ops.push(RegOp::Write { reg: regs::VNDR1, value: (t.vsync_nondisp / 256) as u8 });
    ops.push(RegOp::Write { reg: regs::VSTR0, value: (t.vsync_start - 1) as u8 });
    ops.push(RegOp::Write { reg: regs::VSTR1, value: (t.vsync_start / 256) as u8 });
    ops.push(RegOp::Write { reg: regs::VPWR, value: Vpwr::Low.bits() + t.vsync_pw - 1 });

    ops.push(RegOp::Write { reg: regs::HSAW0, value: 0 });
    ops.push(RegOp::Write { reg: regs::HSAW1, value: 0 });
    ops.push(RegOp::Write { reg: regs::HEAW0, value: ((width - 1) % 256) as u8 });
    ops.push(RegOp::Write { reg: regs::HEAW1, value: ((width - 1) / 256) as u8 });

    ops.push(RegOp::Write { reg: regs::VSAW0, value: 0 });
    ops.push(RegOp::Write { reg: regs::VSAW1, value: 0 });
    ops.push(RegOp::Write { reg: regs::VEAW0, value: ((height - 1) % 256) as u8 });
    ops.push(RegOp::Write { reg: regs::VEAW1, value: ((height - 1) / 256) as u8 });

    ops.push(RegOp::Write { reg: regs::MCLR, value: Mclr::Start.bits() });
    assert(ops@ =~= init_writes(width, height));
    Ok(ops)
}

} // verus!
