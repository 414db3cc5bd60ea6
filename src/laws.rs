//! Properties that relate several operations of the driver, proved over the
//! contracts of those operations.
use vstd::prelude::*;
use crate::cmds::{Dcr, Mwcr0, Pcsr};
use crate::driver::{rect_trigger, RA8875};
use crate::ops::{spec_modified, RegOp};
use crate::regs;
use crate::shapes::{fill_count, row_point};
use crate::timing::{init_writes, reg_write, supported};

verus! {

/// The initialization writes of the 480×272 panel, as its datasheet lists them.
pub open spec fn small_panel_init() -> Seq<RegOp> {
    seq![
        reg_write(regs::SYSR, 0x0C), reg_write(regs::PCSR, 0x82),
        reg_write(regs::HDWR, 59), reg_write(regs::HNDFTR, 0), reg_write(regs::HNDR, 1), reg_write(regs::HSTR, 0), reg_write(regs::HPWR, 5),
        reg_write(regs::VDHR0, 0x0F), reg_write(regs::VDHR1, 1), reg_write(regs::VNDR0, 2), reg_write(regs::VNDR1, 0),
        reg_write(regs::VSTR0, 7), reg_write(regs::VSTR1, 0), reg_write(regs::VPWR, 9),
        reg_write(regs::HSAW0, 0), reg_write(regs::HSAW1, 0), reg_write(regs::HEAW0, 0xDF), reg_write(regs::HEAW1, 1),
        reg_write(regs::VSAW0, 0), reg_write(regs::VSAW1, 0), reg_write(regs::VEAW0, 0x0F), reg_write(regs::VEAW1, 1),
        reg_write(regs::MCLR, 0x80),
    ]
}

/// The initialization writes of the 800×480 panel, as its datasheet lists them.
pub open spec fn large_panel_init() -> Seq<RegOp> {
    seq![
        reg_write(regs::SYSR, 0x0C), reg_write(regs::PCSR, 0x81),
        reg_write(regs::HDWR, 99), reg_write(regs::HNDFTR, 0), reg_write(regs::HNDR, 3), reg_write(regs::HSTR, 3), reg_write(regs::HPWR, 11),
        reg_write(regs::VDHR0, 0xDF), reg_write(regs::VDHR1, 1), reg_write(regs::VNDR0, 31), reg_write(regs::VNDR1, 0),
        reg_write(regs::VSTR0, 22), reg_write(regs::VSTR1, 0), reg_write(regs::VPWR, 1),
        reg_write(regs::HSAW0, 0), reg_write(regs::HSAW1, 0), reg_write(regs::HEAW0, 0x1F), reg_write(regs::HEAW1, 3),
        reg_write(regs::VSAW0, 0), reg_write(regs::VSAW1, 0), reg_write(regs::VEAW0, 0xDF), reg_write(regs::VEAW1, 1),
        reg_write(regs::MCLR, 0x80),
    ]
}

/// For each supported panel, the register values derived from its timing are
/// exactly the datasheet's.
pub proof fn lemma_init_matches_datasheet(width: u32, height: u32)
    requires
        supported(width, height),
    ensures
        width == 480 ==> init_writes(width, height) == small_panel_init(),
        width == 800 ==> init_writes(width, height) == large_panel_init(),
{
    assert(Pcsr::Pdatl.bits() | Pcsr::Clk_4.bits() == 0x82) by (bit_vector)
        requires
            Pcsr::Pdatl.bits() == 0x80u8,
            Pcsr::Clk_4.bits() == 0x02u8,
    ;
    assert(Pcsr::Pdatl.bits() | Pcsr::Clk_2.bits() == 0x81) by (bit_vector)
        requires
            Pcsr::Pdatl.bits() == 0x80u8,
            Pcsr::Clk_2.bits() == 0x01u8,
    ;
    if width == 480 {
        assert(init_writes(width, height) =~= small_panel_init());
    } else {
        assert(init_writes(width, height) =~= large_panel_init());
    }
}

/// Entering text mode twice costs the mode switch and the ROM font selection
/// once: the second entry takes no step and changes nothing. The same holds
/// of graphics mode.
pub proof fn lemma_mode_entry_idempotent(d: RA8875)
    ensures
        d.text_mode_next().text_mode_ops() == Seq::<RegOp>::empty(),
        d.text_mode_next().text_mode_next() == d.text_mode_next(),
        d.graphics_mode_next().graphics_mode_ops() == Seq::<RegOp>::empty(),
        d.graphics_mode_next().graphics_mode_next() == d.graphics_mode_next(),
{
}

/// The read-modify-write steps of the two mode switches change bit 7 of the
/// memory write control register, the text mode bit, and keep every other bit
/// as read.
pub proof fn lemma_mode_switch_flips_only_mode_bit(read: u8)
    ensures
        spec_modified(read, 0xFF, Mwcr0::TxtMode.bits()) & 0x7F == read & 0x7F,
        spec_modified(read, 0xFF, Mwcr0::TxtMode.bits()) & 0x80 == 0x80,
        spec_modified(read, !Mwcr0::TxtMode.bits(), 0) & 0x7F == read & 0x7F,
        spec_modified(read, !Mwcr0::TxtMode.bits(), 0) & 0x80 == 0,
{
    assert(((read & 0xFF) | 0x80) & 0x7F == read & 0x7F) by (bit_vector);
    assert(((read & 0xFF) | 0x80) & 0x80 == 0x80) by (bit_vector);
    assert(((read & !0x80u8) | 0) & 0x7F == read & 0x7F) by (bit_vector);
    assert(((read & !0x80u8) | 0) & 0x80 == 0) by (bit_vector);
}

/// Whether `op` is a write to register `reg`.
pub open spec fn is_write_to(op: RegOp, reg: u8) -> bool {
    op matches RegOp::Write { reg: r, .. } && r == reg
}

/// How many of `ops` write to register `reg`.
pub open spec fn writes_to(ops: Seq<RegOp>, reg: u8) -> nat
    decreases ops.len(),
{
    if ops.len() == 0 {
        0
    } else {
        writes_to(ops.drop_last(), reg) + if is_write_to(ops.last(), reg) {
            1nat
        } else {
            0nat
        }
    }
}

proof fn lemma_writes_to_concat(a: Seq<RegOp>, b: Seq<RegOp>, reg: u8)
    ensures
        writes_to(a + b, reg) == writes_to(a, reg) + writes_to(b, reg),
    decreases b.len(),
{
    if b.len() == 0 {
        assert(a + b =~= a);
    } else {
        lemma_writes_to_concat(a, b.drop_last(), reg);
        assert((a + b).drop_last() =~= a + b.drop_last());
    }
}

proof fn lemma_writes_to_single(op: RegOp, reg: u8)
    ensures
        writes_to(seq![op], reg) == if is_write_to(op, reg) { 1nat } else { 0nat },
{
    assert(seq![op].drop_last() =~= Seq::<RegOp>::empty());
    assert(writes_to(Seq::<RegOp>::empty(), reg) == 0);
}

/// The number of rows that the first `n` pixels of rows `width` wide touch.
pub open spec fn rows_touched(n: nat, width: nat) -> nat {
    if n == 0 {
        0
    } else {
        ((n - 1) / width as int + 1) as nat
    }
}

proof fn lemma_row_start_sets_cursor_once(d: RA8875, top_left: (i32, i32), row: int)
    ensures
        writes_to(d.row_start_ops(row_point(top_left, row)), d.cursor_base()) == 1,
{
    let p = row_point(top_left, row);
    let base = d.cursor_base();
    let s = d.row_start_ops(p);
    assert(s =~= seq![s[0]] + seq![s[1]] + seq![s[2]] + seq![s[3]] + seq![s[4]] + seq![s[5]] + seq![s[6]]);
    lemma_writes_to_concat(seq![s[0]] + seq![s[1]] + seq![s[2]] + seq![s[3]] + seq![s[4]] + seq![s[5]], seq![s[6]], base);
    lemma_writes_to_concat(seq![s[0]] + seq![s[1]] + seq![s[2]] + seq![s[3]] + seq![s[4]], seq![s[5]], base);
    lemma_writes_to_concat(seq![s[0]] + seq![s[1]] + seq![s[2]] + seq![s[3]], seq![s[4]], base);
    lemma_writes_to_concat(seq![s[0]] + seq![s[1]] + seq![s[2]], seq![s[3]], base);
    lemma_writes_to_concat(seq![s[0]] + seq![s[1]], seq![s[2]], base);
    lemma_writes_to_concat(seq![s[0]], seq![s[1]], base);
    lemma_writes_to_single(s[0], base);
    lemma_writes_to_single(s[1], base);
    lemma_writes_to_single(s[2], base);
    lemma_writes_to_single(s[3], base);
    lemma_writes_to_single(s[4], base);
    lemma_writes_to_single(s[5], base);
    lemma_writes_to_single(s[6], base);
}

proof fn lemma_fill_prefix_cursor_sets(d: RA8875, top_left: (i32, i32), width: nat, colors: Seq<u16>, n: nat)
    requires
        width > 0,
    ensures
        writes_to(d.fill_prefix_ops(top_left, width, colors, n), d.cursor_base()) == rows_touched(n, width),
    decreases n,
{
    if n > 0 {
        let m = (n - 1) as nat;
        let base = d.cursor_base();
        lemma_fill_prefix_cursor_sets(d, top_left, width, colors, m);
        let pixel = seq![RegOp::Pixels { color: colors[m as int], count: 1 }];
        lemma_writes_to_single(pixel[0], base);
        assert(pixel =~= seq![pixel[0]]);
        lemma_writes_to_concat(
            d.fill_prefix_ops(top_left, width, colors, m),
            d.fill_pixel_ops(top_left, width, colors, m as int),
            base,
        );
        let w = width as int;
        vstd::arithmetic::div_mod::lemma_fundamental_div_mod(m as int, w);
        let q = (m as int) / w;
        let r = (m as int) % w;
        if r == 0 {
            let start = d.row_start_ops(row_point(top_left, q));
            lemma_row_start_sets_cursor_once(d, top_left, q);
            lemma_writes_to_concat(start, pixel, base);
            assert(d.fill_pixel_ops(top_left, width, colors, m as int) =~= start + pixel);
            if m > 0 {
                assert((q - 1) * w + (w - 1) == m - 1) by (nonlinear_arith)
                    requires
                        m == w * q,
                ;
                vstd::arithmetic::div_mod::lemma_fundamental_div_mod_converse(m - 1, w, q - 1, w - 1);
            }
        } else {
            assert(d.fill_pixel_ops(top_left, width, colors, m as int) =~= Seq::<RegOp>::empty() + pixel);
            assert(Seq::<RegOp>::empty() + pixel =~= pixel);
            vstd::arithmetic::div_mod::lemma_fundamental_div_mod_converse(m - 1, w, q, r - 1);
        }
    }
}

/// A contiguous fill moves the cursor once for each row it touches, not once
/// per pixel: the number of cursor settings is the number of rows.
pub proof fn lemma_fill_contiguous_cursor_per_row(
    d: RA8875,
    top_left: (i32, i32),
    size: (u32, u32),
    colors: Seq<u16>,
)
    ensures
        writes_to(d.fill_contiguous_ops(top_left, size, colors), d.cursor_base()) == rows_touched(
            fill_count(size, colors.len()),
            size.0 as nat,
        ),
{
    let n = fill_count(size, colors.len());
    if n > 0 {
        assert(size.0 > 0) by (nonlinear_arith)
            requires
                n > 0,
                n <= size.0 * size.1,
        ;
        lemma_fill_prefix_cursor_sets(d, top_left, size.0 as nat, colors, n);
        lemma_writes_to_concat(
            d.fill_prefix_ops(top_left, size.0 as nat, colors, n),
            seq![RegOp::StreamEnd],
            d.cursor_base(),
        );
        lemma_writes_to_single(RegOp::StreamEnd, d.cursor_base());
    }
}

/// A step with its data zeroed: which kind of step it is and which register
/// it addresses, without the values written.
pub open spec fn skeleton(op: RegOp) -> RegOp {
    match op {
        RegOp::Write { reg, .. } => RegOp::Write { reg, value: 0 },
        RegOp::Data { .. } => RegOp::Data { value: 0 },
        RegOp::Pixels { count, .. } => RegOp::Pixels { color: 0, count },
        _ => op,
    }
}

/// The register template of a sequence of steps.
pub open spec fn template(ops: Seq<RegOp>) -> Seq<RegOp> {
    ops.map_values(|op: RegOp| skeleton(op))
}

/// All rectangles drawn from one state go through the same register
/// template, whatever their corners, colour and fill; the trigger byte, the
/// second last step, is where fill and outline part, by the FILL bit alone.
pub proof fn lemma_rect_template(
    d: RA8875,
    a0: (i16, i16),
    a1: (i16, i16),
    color_a: u16,
    fill_a: bool,
    b0: (i16, i16),
    b1: (i16, i16),
    color_b: u16,
    fill_b: bool,
)
    ensures
        template(d.rect_ops(a0, a1, color_a, fill_a)) == template(d.rect_ops(b0, b1, color_b, fill_b)),
        ({
            let ops = d.rect_ops(a0, a1, color_a, fill_a);
            &&& ops.len() >= 2
            &&& ops[ops.len() - 2] == RegOp::Write { reg: regs::DCR, value: rect_trigger(fill_a) }
        }),
        rect_trigger(true) == rect_trigger(false) | Dcr::FILL.bits(),
        rect_trigger(false) & Dcr::FILL.bits() == 0,
{
    let a = d.rect_ops(a0, a1, color_a, fill_a);
    let b = d.rect_ops(b0, b1, color_b, fill_b);
    assert(template(a) =~= template(b));
    assert(rect_trigger(false) & Dcr::FILL.bits() == 0) by (bit_vector)
        requires
            rect_trigger(false) == 0x80u8 | 0x10u8,
            Dcr::FILL.bits() == 0x20u8,
    ;
}

} // verus!
