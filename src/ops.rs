//! Register-level operations: the steps that every driver operation is made of.
use vstd::prelude::*;

verus! {

/// A point on the panel, x then y.
pub type Coord = (i16, i16);

/// One register-level step. Each step is carried out as one or more
/// ready-gated transactions (see `transport::frame`), except the three stream
/// steps, which drive chip select and the channel directly.
#[derive(Clone, Copy, Debug, PartialEq, Eq, Structural)]
pub enum RegOp {
    /// Command-write `reg`, then data-write `value`.
    Write { reg: u8, value: u8 },
    /// Command-write `reg` alone, selecting it for the data phases that follow.
    Select { reg: u8 },
    /// Data-write `value` to the register selected last.
    Data { value: u8 },
    /// Command-write `reg`, then data-read it; the byte read is a result of the operation.
    Read { reg: u8 },
    /// Command-write `reg`, data-read it as `t`, then data-write `modified(t, keep, set)`;
    /// with `reselect`, `reg` is command-written once more before that last write.
    Modify { reg: u8, keep: u8, set: u8, reselect: bool },
    /// Command-write `reg` and data-read it, over and over, until `still_busy` says no.
    WaitClear { reg: u8, mask: u8 },
    /// Lower chip select and send the data-write opcode, opening a raw pixel stream.
    StreamStart,
    /// Send `count` pixels of `color` into the open stream, each high byte first.
    Pixels { color: u16, count: u32 },
    /// Raise chip select, closing the stream.
    StreamEnd,
}

/// The byte a read-modify-write step writes back after reading `read`.
pub open spec fn spec_modified(read: u8, keep: u8, set: u8) -> u8 {
    (read & keep) | set
}

/// Computes the byte that a `Modify` step writes back.
pub fn modified(read: u8, keep: u8, set: u8) -> (r: u8)
    ensures
        r == spec_modified(read, keep, set),
{
    (read & keep) | set
}

/// Decides whether a `WaitClear` step must poll again: the hardware still
/// holds one of the bits of `mask`.
pub fn still_busy(read: u8, mask: u8) -> (r: bool)
    ensures
        r == (read & mask != 0),
{
    read & mask != 0
}

/// The two bytes of a pixel as they go into a stream: high byte, then low byte.
pub fn pixel_bytes(color: u16) -> (r: (u8, u8))
    ensures
        r == (high_byte16(color), low_byte16(color)),
{
    ((color >> 8) as u8, color as u8)
}

/// The low eight bits of a signed coordinate, as the chip takes them.
pub open spec fn low_byte(v: i16) -> u8 {
    v as u8
}

/// The high eight bits of a signed coordinate.
pub open spec fn high_byte(v: i16) -> u8 {
    (v >> 8) as u8
}

/// The low eight bits of an unsigned 16-bit quantity.
pub open spec fn low_byte16(v: u16) -> u8 {
    v as u8
}

/// The high eight bits of an unsigned 16-bit quantity.
pub open spec fn high_byte16(v: u16) -> u8 {
    (v >> 8) as u8
}

/// Writing point `p` into the group of four coordinate registers that starts at `base`.
pub open spec fn point_writes(base: u8, p: Coord) -> Seq<RegOp> {
    seq![
        RegOp::Write { reg: base, value: low_byte(p.0) },
        RegOp::Write { reg: (base + 1) as u8, value: high_byte(p.0) },
        RegOp::Write { reg: (base + 2) as u8, value: low_byte(p.1) },
        RegOp::Write { reg: (base + 3) as u8, value: high_byte(p.1) },
    ]
}

/// The red field (five bits) of a 5-6-5 colour.
pub open spec fn red5(c: u16) -> u8 {
    (c >> 11) as u8
}

/// The green field (six bits) of a 5-6-5 colour.
pub open spec fn green6(c: u16) -> u8 {
    ((c >> 5) & 0x3f) as u8
}

/// The blue field (five bits) of a 5-6-5 colour.
pub open spec fn blue5(c: u16) -> u8 {
    (c & 0x1f) as u8
}

/// Writing colour `c` into the three channel registers that start at `base`.
pub open spec fn color_writes(base: u8, c: u16) -> Seq<RegOp> {
    seq![
        RegOp::Write { reg: base, value: red5(c) },
        RegOp::Write { reg: (base + 1) as u8, value: green6(c) },
        RegOp::Write { reg: (base + 2) as u8, value: blue5(c) },
    ]
}

/// Appends the writes of point `p` into the coordinate registers at `base`.
pub fn push_point(ops: &mut Vec<RegOp>, base: u8, p: Coord)
    requires
        base <= 252,
    ensures
        final(ops)@ == old(ops)@ + point_writes(base, p),
{
    let (x, y) = p;
    ops.push(RegOp::Write { reg: base, value: x as u8 });
    ops.push(RegOp::Write { reg: base + 1, value: (x >> 8) as u8 });
    ops.push(RegOp::Write { reg: base + 2, value: y as u8 });
    ops.push(RegOp::Write { reg: base + 3, value: (y >> 8) as u8 });
    assert(ops@ =~= old(ops)@ + point_writes(base, p));
}

/// Appends the writes of colour `c` into the channel registers at `base`.
pub fn push_color(ops: &mut Vec<RegOp>, base: u8, c: u16)
    requires
        base <= 253,
    ensures
        final(ops)@ == old(ops)@ + color_writes(base, c),
{
    ops.push(RegOp::Write { reg: base, value: (c >> 11) as u8 });
    ops.push(RegOp::Write { reg: base + 1, value: ((c >> 5) & 0x3f) as u8 });
    ops.push(RegOp::Write { reg: base + 2, value: (c & 0x1f) as u8 });
    assert(ops@ =~= old(ops)@ + color_writes(base, c));
}

} // verus!
