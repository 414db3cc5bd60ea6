//! Named bit patterns of the chip's control registers.
//!
//! Each enum lists the values that one register takes; `bits` gives the byte.
use vstd::prelude::*;

verus! {

/// Power and display control register values.
#[allow(non_camel_case_types)]
#[derive(Clone, Copy, Debug, PartialEq, Eq, Structural)]
pub enum Pwrr {
    DispOn,
    Sleep,
    Normal,
    SoftReset,
}

impl Pwrr {
    pub open spec fn spec_bits(self) -> u8 {
        match self {
            Pwrr::DispOn => 0x80,
            Pwrr::Sleep => 0x02,
            Pwrr::Normal => 0x00,
            Pwrr::SoftReset => 0x01,
        }
    }

    /// The byte this value stands for.
    #[verifier::when_used_as_spec(spec_bits)]
    pub fn bits(self) -> (r: u8)
        ensures
            r == self.spec_bits(),
    {
        match self {
            Pwrr::DispOn => 0x80,
            Pwrr::Sleep => 0x02,
            Pwrr::Normal => 0x00,
            Pwrr::SoftReset => 0x01,
        }
    }
}

/// First PLL control register: input divider.
#[allow(non_camel_case_types)]
#[derive(Clone, Copy, Debug, PartialEq, Eq, Structural)]
pub enum PllC1 {
    Div2,
    Div1,
}

impl PllC1 {
    pub open spec fn spec_bits(self) -> u8 {
        match self {
            PllC1::Div2 => 0x80,
            PllC1::Div1 => 0x00,
        }
    }

    /// The byte this value stands for.
    #[verifier::when_used_as_spec(spec_bits)]
    pub fn bits(self) -> (r: u8)
        ensures
            r == self.spec_bits(),
    {
        match self {
            PllC1::Div2 => 0x80,
            PllC1::Div1 => 0x00,
        }
    }
}

/// Second PLL control register: output divider.
#[allow(non_camel_case_types)]
#[derive(Clone, Copy, Debug, PartialEq, Eq, Structural)]
pub enum PllC2 {
    Div1,
    Div2,
    Div4,
    Div8,
    Div16,
    Div32,
    Div64,
    Div128,
}

impl PllC2 {
    pub open spec fn spec_bits(self) -> u8 {
        match self {
            PllC2::Div1 => 0x00,
            PllC2::Div2 => 0x01,
            PllC2::Div4 => 0x02,
            PllC2::Div8 => 0x03,
            PllC2::Div16 => 0x04,
            PllC2::Div32 => 0x05,
            PllC2::Div64 => 0x06,
            PllC2::Div128 => 0x07,
        }
    }

    /// The byte this value stands for.
    #[verifier::when_used_as_spec(spec_bits)]
    pub fn bits(self) -> (r: u8)
        ensures
            r == self.spec_bits(),
    {
        match self {
            PllC2::Div1 => 0x00,
            PllC2::Div2 => 0x01,
            PllC2::Div4 => 0x02,
            PllC2::Div8 => 0x03,
            PllC2::Div16 => 0x04,
            PllC2::Div32 => 0x05,
            PllC2::Div64 => 0x06,
            PllC2::Div128 => 0x07,
        }
    }
}

/// System configuration register: colour depth and host interface.
#[allow(non_camel_case_types)]
#[derive(Clone, Copy, Debug, PartialEq, Eq, Structural)]
pub enum Sysr {
    BBP_8,
    BBP_16,
    MCU_16,
}

impl Sysr {
    pub open spec fn spec_bits(self) -> u8 {
        match self {
            Sysr::BBP_8 => 0x00,
            Sysr::BBP_16 => 0x0C,
            Sysr::MCU_16 => 0x03,
        }
    }

    /// The byte this value stands for.
    #[verifier::when_used_as_spec(spec_bits)]
    pub fn bits(self) -> (r: u8)
        ensures
            r == self.spec_bits(),
    {
        match self {
            Sysr::BBP_8 => 0x00,
            Sysr::BBP_16 => 0x0C,
            Sysr::MCU_16 => 0x03,
        }
    }
}

/// Pixel clock setting register.
#[allow(non_camel_case_types)]
#[derive(Clone, Copy, Debug, PartialEq, Eq, Structural)]
pub enum Pcsr {
    Pdatr,
    Pdatl,
    Clk_2,
    Clk_4,
    Clk_8,
}

impl Pcsr {
    pub open spec fn spec_bits(self) -> u8 {
        match self {
            Pcsr::Pdatr => 0x00,
            Pcsr::Pdatl => 0x80,
            Pcsr::Clk_2 => 0x01,
            Pcsr::Clk_4 => 0x02,
            Pcsr::Clk_8 => 0x03,
        }
    }

    /// The byte this value stands for.
    #[verifier::when_used_as_spec(spec_bits)]
    pub fn bits(self) -> (r: u8)
        ensures
            r == self.spec_bits(),
    {
        match self {
            Pcsr::Pdatr => 0x00,
            Pcsr::Pdatl => 0x80,
            Pcsr::Clk_2 => 0x01,
            Pcsr::Clk_4 => 0x02,
            Pcsr::Clk_8 => 0x03,
        }
    }
}

/// Horizontal non-display fine-tune register: sync polarity.
#[allow(non_camel_case_types)]
#[derive(Clone, Copy, Debug, PartialEq, Eq, Structural)]
pub enum Hndftr {
    High,
    Low,
}

impl Hndftr {
    pub open spec fn spec_bits(self) -> u8 {
        match self {
            Hndftr::High => 0x00,
            Hndftr::Low => 0x80,
        }
    }

    /// The byte this value stands for.
    #[verifier::when_used_as_spec(spec_bits)]
    pub fn bits(self) -> (r: u8)
        ensures
            r == self.spec_bits(),
    {
        match self {
            Hndftr::High => 0x00,
            Hndftr::Low => 0x80,
        }
    }
}

/// Horizontal sync pulse width register: sync polarity.
#[allow(non_camel_case_types)]
#[derive(Clone, Copy, Debug, PartialEq, Eq, Structural)]
pub enum Hpwr {
    High,
    Low,
}

impl Hpwr {
    pub open spec fn spec_bits(self) -> u8 {
        match self {
            Hpwr::High => 0x80,
            Hpwr::Low => 0x00,
        }
    }

    /// The byte this value stands for.
    #[verifier::when_used_as_spec(spec_bits)]
    pub fn bits(self) -> (r: u8)
        ensures
            r == self.spec_bits(),
    {
        match self {
            Hpwr::High => 0x80,
            Hpwr::Low => 0x00,
        }
    }
}

/// Vertical sync pulse width register: sync polarity.
#[allow(non_camel_case_types)]
#[derive(Clone, Copy, Debug, PartialEq, Eq, Structural)]
pub enum Vpwr {
    High,
    Low,
}

impl Vpwr {
    pub open spec fn spec_bits(self) -> u8 {
        match self {
            Vpwr::High => 0x80,
            Vpwr::Low => 0x00,
        }
    }

    /// The byte this value stands for.
    #[verifier::when_used_as_spec(spec_bits)]
    pub fn bits(self) -> (r: u8)
        ensures
            r == self.spec_bits(),
    {
        match self {
            Vpwr::High => 0x80,
            Vpwr::Low => 0x00,
        }
    }
}

/// Memory clear control register.
#[allow(non_camel_case_types)]
#[derive(Clone, Copy, Debug, PartialEq, Eq, Structural)]
pub enum Mclr {
    Start,
    Stop,
    Active,
}

impl Mclr {
    pub open spec fn spec_bits(self) -> u8 {
        match self {
            Mclr::Start => 0x80,
            Mclr::Stop => 0x00,
            Mclr::Active => 0x40,
        }
    }

    /// The byte this value stands for.
    #[verifier::when_used_as_spec(spec_bits)]
    pub fn bits(self) -> (r: u8)
        ensures
            r == self.spec_bits(),
    {
        match self {
            Mclr::Start => 0x80,
            Mclr::Stop => 0x00,
            Mclr::Active => 0x40,
        }
    }
}

/// Drawing control register: line, square, triangle and circle engine.
#[allow(non_camel_case_types)]
#[derive(Clone, Copy, Debug, PartialEq, Eq, Structural)]
pub enum Dcr {
    LINESQUTRI_START,
    CIRCLE_START,
    FILL,
    DRAWLINE,
    DRAWTRIANGLE,
    DRAWSQUARE,
}

impl Dcr {
    pub open spec fn spec_bits(self) -> u8 {
        match self {
            Dcr::LINESQUTRI_START => 0x80,
            Dcr::CIRCLE_START => 0x40,
            Dcr::FILL => 0x20,
            Dcr::DRAWLINE => 0x00,
            Dcr::DRAWTRIANGLE => 0x01,
            Dcr::DRAWSQUARE => 0x10,
        }
    }

    /// The byte this value stands for.
    #[verifier::when_used_as_spec(spec_bits)]
    pub fn bits(self) -> (r: u8)
        ensures
            r == self.spec_bits(),
    {
        match self {
            Dcr::LINESQUTRI_START => 0x80,
            Dcr::CIRCLE_START => 0x40,
            Dcr::FILL => 0x20,
            Dcr::DRAWLINE => 0x00,
            Dcr::DRAWTRIANGLE => 0x01,
            Dcr::DRAWSQUARE => 0x10,
        }
    }
}

/// Ellipse and curve drawing control register.
#[allow(non_camel_case_types)]
#[derive(Clone, Copy, Debug, PartialEq, Eq, Structural)]
pub enum DrawEllipseCR {
    DRAWSTART,
    FILL,
    ELLIPSE_CIRCSQ_SEL,
    ELLIPSE_CURVE_SEL,
    EllipseCurvePart,
}

impl DrawEllipseCR {
    pub open spec fn spec_bits(self) -> u8 {
        match self {
            DrawEllipseCR::DRAWSTART => 0x80,
            DrawEllipseCR::FILL => 0x40,
            DrawEllipseCR::ELLIPSE_CIRCSQ_SEL => 0x20,
            DrawEllipseCR::ELLIPSE_CURVE_SEL => 0x10,
            DrawEllipseCR::EllipseCurvePart => 0x03,
        }
    }

    /// The byte this value stands for.
    #[verifier::when_used_as_spec(spec_bits)]
    pub fn bits(self) -> (r: u8)
        ensures
            r == self.spec_bits(),
    {
        match self {
            DrawEllipseCR::DRAWSTART => 0x80,
            DrawEllipseCR::FILL => 0x40,
            DrawEllipseCR::ELLIPSE_CIRCSQ_SEL => 0x20,
            DrawEllipseCR::ELLIPSE_CURVE_SEL => 0x10,
            DrawEllipseCR::EllipseCurvePart => 0x03,
        }
    }
}

/// Memory write control register 0: text or graphics addressing.
#[allow(non_camel_case_types)]
#[derive(Clone, Copy, Debug, PartialEq, Eq, Structural)]
pub enum Mwcr0 {
    GfxMode,
    TxtMode,
}

impl Mwcr0 {
    pub open spec fn spec_bits(self) -> u8 {
        match self {
            Mwcr0::GfxMode => 0x00,
            Mwcr0::TxtMode => 0x80,
        }
    }

    /// The byte this value stands for.
    #[verifier::when_used_as_spec(spec_bits)]
    pub fn bits(self) -> (r: u8)
        ensures
            r == self.spec_bits(),
    {
        match self {
            Mwcr0::GfxMode => 0x00,
            Mwcr0::TxtMode => 0x80,
        }
    }
}

/// PWM1 control register.
#[allow(non_camel_case_types)]
#[derive(Clone, Copy, Debug, PartialEq, Eq, Structural)]
pub enum P1cr {
    Enable,
    ClkOut,
    PwmOut,
}

impl P1cr {
    pub open spec fn spec_bits(self) -> u8 {
        match self {
            P1cr::Enable => 0x80,
            P1cr::ClkOut => 0x10,
            P1cr::PwmOut => 0x00,
        }
    }

    /// The byte this value stands for.
    #[verifier::when_used_as_spec(spec_bits)]
    pub fn bits(self) -> (r: u8)
        ensures
            r == self.spec_bits(),
    {
        match self {
            P1cr::Enable => 0x80,
            P1cr::ClkOut => 0x10,
            P1cr::PwmOut => 0x00,
        }
    }
}

/// PWM2 control register.
#[allow(non_camel_case_types)]
#[derive(Clone, Copy, Debug, PartialEq, Eq, Structural)]
pub enum P2cr {
    Enable,
    ClkOut,
    PwmOut,
}

impl P2cr {
    pub open spec fn spec_bits(self) -> u8 {
        match self {
            P2cr::Enable => 0x80,
            P2cr::ClkOut => 0x10,
            P2cr::PwmOut => 0x00,
        }
    }

    /// The byte this value stands for.
    #[verifier::when_used_as_spec(spec_bits)]
    pub fn bits(self) -> (r: u8)
        ensures
            r == self.spec_bits(),
    {
        match self {
            P2cr::Enable => 0x80,
            P2cr::ClkOut => 0x10,
            P2cr::PwmOut => 0x00,
        }
    }
}

/// PWM clock dividers.
#[allow(non_camel_case_types)]
#[derive(Clone, Copy, Debug, PartialEq, Eq, Structural)]
pub enum PwmClk {
    Div1,
    Div2,
    Div4,
    Div8,
    Div16,
    Div32,
    Div64,
    Div128,
    Div256,
    Div512,
    Div1024,
    Div2048,
    Div4096,
    Div8192,
    Div16384,
    Div32768,
}

impl PwmClk {
    pub open spec fn spec_bits(self) -> u8 {
        match self {
            PwmClk::Div1 => 0x00,
            PwmClk::Div2 => 0x01,
            PwmClk::Div4 => 0x02,
            PwmClk::Div8 => 0x03,
            PwmClk::Div16 => 0x04,
            PwmClk::Div32 => 0x05,
            PwmClk::Div64 => 0x06,
            PwmClk::Div128 => 0x07,
            PwmClk::Div256 => 0x08,
            PwmClk::Div512 => 0x09,
            PwmClk::Div1024 => 0x0A,
            PwmClk::Div2048 => 0x0B,
            PwmClk::Div4096 => 0x0C,
            PwmClk::Div8192 => 0x0D,
            PwmClk::Div16384 => 0x0E,
            PwmClk::Div32768 => 0x0F,
        }
    }

    /// The byte this value stands for.
    #[verifier::when_used_as_spec(spec_bits)]
    pub fn bits(self) -> (r: u8)
        ensures
            r == self.spec_bits(),
    {
        match self {
            PwmClk::Div1 => 0x00,
            PwmClk::Div2 => 0x01,
            PwmClk::Div4 => 0x02,
            PwmClk::Div8 => 0x03,
            PwmClk::Div16 => 0x04,
            PwmClk::Div32 => 0x05,
            PwmClk::Div64 => 0x06,
            PwmClk::Div128 => 0x07,
            PwmClk::Div256 => 0x08,
            PwmClk::Div512 => 0x09,
            PwmClk::Div1024 => 0x0A,
            PwmClk::Div2048 => 0x0B,
            PwmClk::Div4096 => 0x0C,
            PwmClk::Div8192 => 0x0D,
            PwmClk::Div16384 => 0x0E,
            PwmClk::Div32768 => 0x0F,
        }
    }
}

/// Touch panel control register 0.
#[allow(non_camel_case_types)]
#[derive(Clone, Copy, Debug, PartialEq, Eq, Structural)]
pub enum Tpcr0 {
    ENABLE,
    WAIT_512CLK,
    WAIT_1024CLK,
    WAIT_2048CLK,
    WAIT_4096CLK,
    WAIT_8192CLK,
    WAIT_16384CLK,
    WAIT_32768CLK,
    WAIT_65536CLK,
    WAKEENABLE,
    ADCCLK_DIV2,
    ADCCLK_DIV4,
    ADCCLK_DIV8,
    ADCCLK_DIV16,
    ADCCLK_DIV32,
    ADCCLK_DIV64,
    ADCCLK_DIV128,
}

impl Tpcr0 {
    pub open spec fn spec_bits(self) -> u8 {
        match self {
            Tpcr0::ENABLE => 0x80,
            Tpcr0::WAIT_512CLK => 0x00,
            Tpcr0::WAIT_1024CLK => 0x10,
            Tpcr0::WAIT_2048CLK => 0x20,
            Tpcr0::WAIT_4096CLK => 0x30,
            Tpcr0::WAIT_8192CLK => 0x40,
            Tpcr0::WAIT_16384CLK => 0x50,
            Tpcr0::WAIT_32768CLK => 0x60,
            Tpcr0::WAIT_65536CLK => 0x70,
            Tpcr0::WAKEENABLE => 0x08,
            Tpcr0::ADCCLK_DIV2 => 0x01,
            Tpcr0::ADCCLK_DIV4 => 0x02,
            Tpcr0::ADCCLK_DIV8 => 0x03,
            Tpcr0::ADCCLK_DIV16 => 0x04,
            Tpcr0::ADCCLK_DIV32 => 0x05,
            Tpcr0::ADCCLK_DIV64 => 0x06,
            Tpcr0::ADCCLK_DIV128 => 0x07,
        }
    }

    /// The byte this value stands for.
    #[verifier::when_used_as_spec(spec_bits)]
    pub fn bits(self) -> (r: u8)
        ensures
            r == self.spec_bits(),
    {
        match self {
            Tpcr0::ENABLE => 0x80,
            Tpcr0::WAIT_512CLK => 0x00,
            Tpcr0::WAIT_1024CLK => 0x10,
            Tpcr0::WAIT_2048CLK => 0x20,
            Tpcr0::WAIT_4096CLK => 0x30,
            Tpcr0::WAIT_8192CLK => 0x40,
            Tpcr0::WAIT_16384CLK => 0x50,
            Tpcr0::WAIT_32768CLK => 0x60,
            Tpcr0::WAIT_65536CLK => 0x70,
            Tpcr0::WAKEENABLE => 0x08,
            Tpcr0::ADCCLK_DIV2 => 0x01,
            Tpcr0::ADCCLK_DIV4 => 0x02,
            Tpcr0::ADCCLK_DIV8 => 0x03,
            Tpcr0::ADCCLK_DIV16 => 0x04,
            Tpcr0::ADCCLK_DIV32 => 0x05,
            Tpcr0::ADCCLK_DIV64 => 0x06,
            Tpcr0::ADCCLK_DIV128 => 0x07,
        }
    }
}

/// Touch panel control register 1.
#[allow(non_camel_case_types)]
#[derive(Clone, Copy, Debug, PartialEq, Eq, Structural)]
pub enum Tprc1 {
    AUTO,
    MANUAL,
    VREFEXT,
    DEBOUNCE,
    WAIT,
    LATCHX,
    LATCHY,
}

impl Tprc1 {
    pub open spec fn spec_bits(self) -> u8 {
        match self {
            Tprc1::AUTO => 0x00,
            Tprc1::MANUAL => 0x40,
            Tprc1::VREFEXT => 0x20,
            Tprc1::DEBOUNCE => 0x04,
            Tprc1::WAIT => 0x01,
            Tprc1::LATCHX => 0x02,
            Tprc1::LATCHY => 0x03,
        }
    }

    /// The byte this value stands for.
    #[verifier::when_used_as_spec(spec_bits)]
    pub fn bits(self) -> (r: u8)
        ensures
            r == self.spec_bits(),
    {
        match self {
            Tprc1::AUTO => 0x00,
            Tprc1::MANUAL => 0x40,
            Tprc1::VREFEXT => 0x20,
            Tprc1::DEBOUNCE => 0x04,
            Tprc1::WAIT => 0x01,
            Tprc1::LATCHX => 0x02,
            Tprc1::LATCHY => 0x03,
        }
    }
}

/// Interrupt control register 1: interrupt enables.
#[allow(non_camel_case_types)]
#[derive(Clone, Copy, Debug, PartialEq, Eq, Structural)]
pub enum Intc1 {
    KEY,
    DMA,
    TP,
    BTE,
}

impl Intc1 {
    pub open spec fn spec_bits(self) -> u8 {
        match self {
            Intc1::KEY => 0x10,
            Intc1::DMA => 0x08,
            Intc1::TP => 0x04,
            Intc1::BTE => 0x02,
        }
    }

    /// The byte this value stands for.
    #[verifier::when_used_as_spec(spec_bits)]
    pub fn bits(self) -> (r: u8)
        ensures
            r == self.spec_bits(),
    {
        match self {
            Intc1::KEY => 0x10,
            Intc1::DMA => 0x08,
            Intc1::TP => 0x04,
            Intc1::BTE => 0x02,
        }
    }
}

/// Interrupt control register 2: interrupt flags.
#[allow(non_camel_case_types)]
#[derive(Clone, Copy, Debug, PartialEq, Eq, Structural)]
pub enum Intc2 {
    KEY,
    DMA,
    TP,
    BTE,
}

impl Intc2 {
    pub open spec fn spec_bits(self) -> u8 {
        match self {
            Intc2::KEY => 0x10,
            Intc2::DMA => 0x08,
            Intc2::TP => 0x04,
            Intc2::BTE => 0x02,
        }
    }

    /// The byte this value stands for.
    #[verifier::when_used_as_spec(spec_bits)]
    pub fn bits(self) -> (r: u8)
        ensures
            r == self.spec_bits(),
    {
        match self {
            Intc2::KEY => 0x10,
            Intc2::DMA => 0x08,
            Intc2::TP => 0x04,
            Intc2::BTE => 0x02,
        }
    }
}

} // verus!
